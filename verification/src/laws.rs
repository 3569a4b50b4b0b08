//! What holds of every room, whatever happens in it.

use crate::listing::lists;
use crate::media::{ConsumerId, NewConsumer, ProducerId, RtpCapabilities, TransportId};
use crate::peer::{
    event_of, relays_of, request_of, Client2Server, ConsumerSignal, PeerEvent, PeerTx, PeerView,
    Relay, Server2Client,
};
use crate::room::{Action, Event, Offer};
use crate::rules::{
    closing, consumes, handled, join_plan, leave_plan, moved, produce_plan, receipt, released,
    roll_call, sender, subject, Input, RoomView,
};
use crate::uid::Uid;
use vstd::prelude::*;

verus! {

/// An input changes nothing but the peer whose affair it is: everyone else stays in the room,
/// as they were, and nobody else comes in.
pub proof fn law_only_the_subject_changes(
    pre: RoomView,
    input: Input,
    post: RoomView,
    actions: Seq<Action>,
    user_id: Uid,
)
    requires
        moved(pre, input, post, actions),
        subject(input) != Some(user_id),
    ensures
        post.id == pre.id,
        post.rtp_caps == pre.rtp_caps,
        post.has(user_id) == pre.has(user_id),
        pre.has(user_id) ==> post.peer(user_id) == pre.peer(user_id),
{
}

/// What a peer has, it has by the way that leads there: only who has joined can receive or
/// produce, and only who can receive has consumers.
pub open spec fn sound(room: RoomView) -> bool {
    forall|u: Uid| #[trigger]
        room.has(u) ==> {
            &&& room.peer(u).rtp_caps is Some ==> room.peer(u).joined
            &&& !room.peer(u).producers.is_empty() ==> room.peer(u).joined
            &&& !room.peer(u).consumers.is_empty() ==> room.peer(u).rtp_caps is Some
        }
}

/// Soundness is kept by every input.
pub proof fn law_room_stays_sound(
    pre: RoomView,
    input: Input,
    post: RoomView,
    actions: Seq<Action>,
)
    requires
        moved(pre, input, post, actions),
        sound(pre),
    ensures
        sound(post),
{
    assert forall|u: Uid| #[trigger] post.has(u) implies {
        &&& post.peer(u).rtp_caps is Some ==> post.peer(u).joined
        &&& !post.peer(u).producers.is_empty() ==> post.peer(u).joined
        &&& !post.peer(u).consumers.is_empty() ==> post.peer(u).rtp_caps is Some
    } by {
        if subject(input) != Some(u) {
            law_only_the_subject_changes(pre, input, post, actions, u);
        }
        assert(pre.has(u) || post.peer(u).producers =~= Map::empty());
    }
}

proof fn lemma_concat_contains<A>(s: Seq<A>, t: Seq<A>, a: A)
    ensures
        (s + t).contains(a) <==> s.contains(a) || t.contains(a),
{
    if s.contains(a) {
        let i = choose|i: int| 0 <= i < s.len() && s[i] == a;
        assert((s + t)[i] == a);
    }
    if t.contains(a) {
        let i = choose|i: int| 0 <= i < t.len() && t[i] == a;
        assert((s + t)[s.len() + i] == a);
    }
    if (s + t).contains(a) {
        let i = choose|i: int| 0 <= i < (s + t).len() && (s + t)[i] == a;
        if i < s.len() {
            assert(s[i] == a);
        } else {
            assert(t[i - s.len()] == a);
        }
    }
}

/// Something that a peer can hold.
pub enum Holding {
    Transport(TransportId),
    Consumer(ConsumerId),
    Producer(ProducerId),
}

/// `user_id` is in the room and holds it.
pub open spec fn holds(room: RoomView, user_id: Uid, h: Holding) -> bool {
    &&& room.has(user_id)
    &&& match h {
        Holding::Transport(id) => room.peer(user_id).transports.contains_key(id.0),
        Holding::Consumer(id) => room.peer(user_id).consumers.contains(id.0),
        Holding::Producer(id) => room.peer(user_id).producers.contains_key(id.0),
    }
}

/// The action that closes it.
pub open spec fn close_of(h: Holding) -> Action {
    match h {
        Holding::Transport(id) => Action::CloseTransport { id },
        Holding::Consumer(id) => Action::CloseConsumer { id },
        Holding::Producer(id) => Action::CloseProducer { id },
    }
}

/// What the media layer has just made, where an input says that it has made something.
pub open spec fn brought(input: Input) -> Option<Holding> {
    match input {
        Input::Consumed { consumer: Some(c), .. } => Some(Holding::Consumer(c.id)),
        Input::Produced { producer: Some(id), .. } => Some(Holding::Producer(id)),
        Input::TransportCreated { transport, .. } => Some(Holding::Transport(transport.id)),
        _ => None,
    }
}

proof fn lemma_closing(ts: Seq<u128>, cs: Seq<u128>, ps: Seq<u128>, h: Holding)
    ensures
        closing(ts, cs, ps).contains(close_of(h)) <==> match h {
            Holding::Transport(id) => ts.contains(id.0),
            Holding::Consumer(id) => cs.contains(id.0),
            Holding::Producer(id) => ps.contains(id.0),
        },
{
    let a = ts.map_values(|id: u128| Action::CloseTransport { id: TransportId(id) });
    let b = cs.map_values(|id: u128| Action::CloseConsumer { id: ConsumerId(id) });
    let c = ps.map_values(|id: u128| Action::CloseProducer { id: ProducerId(id) });
    lemma_concat_contains(a + b, c, close_of(h));
    lemma_concat_contains(a, b, close_of(h));
    match h {
        Holding::Transport(id) => {
            if ts.contains(id.0) {
                let i = choose|i: int| 0 <= i < ts.len() && ts[i] == id.0;
                assert(a[i] == close_of(h));
            }
        },
        Holding::Consumer(id) => {
            if cs.contains(id.0) {
                let i = choose|i: int| 0 <= i < cs.len() && cs[i] == id.0;
                assert(b[i] == close_of(h));
            }
        },
        Holding::Producer(id) => {
            if ps.contains(id.0) {
                let i = choose|i: int| 0 <= i < ps.len() && ps[i] == id.0;
                assert(c[i] == close_of(h));
            }
        },
    }
}

proof fn lemma_released(room: RoomView, user_id: Uid, rest: Seq<Action>, h: Holding)
    requires
        room.has(user_id),
        released(room.peer(user_id), rest),
    ensures
        rest.contains(close_of(h)) <==> holds(room, user_id, h),
{
    let peer = room.peer(user_id);
    let opening = seq![Action::Forget { tx: peer.tx }];
    let (ts, cs, ps) = choose|ts: Seq<u128>, cs: Seq<u128>, ps: Seq<u128>|
        {
            &&& #[trigger] lists(ts, peer.transports.dom())
            &&& #[trigger] lists(cs, peer.consumers)
            &&& #[trigger] lists(ps, peer.producers.dom())
            &&& rest =~= opening + closing(ts, cs, ps)
        };
    lemma_closing(ts, cs, ps, h);
    lemma_concat_contains(opening, closing(ts, cs, ps), close_of(h));
    assert(!opening.contains(close_of(h)));
}

/// Nothing leaks and nothing is closed behind its owner's back. What a peer no longer holds is
/// closed; what is closed was held by the input's subject and no longer is, or was brought by
/// the input and not taken in; what is brought is taken in or closed; and a peer comes to hold
/// only what was brought for it.
pub proof fn law_what_is_given_up_is_closed(
    pre: RoomView,
    input: Input,
    post: RoomView,
    actions: Seq<Action>,
    user_id: Uid,
    h: Holding,
)
    requires
        moved(pre, input, post, actions),
    ensures
        holds(pre, user_id, h) && !holds(post, user_id, h) ==> actions.contains(close_of(h)),
        actions.contains(close_of(h)) ==> {
            ||| {
                &&& subject(input) is Some
                &&& holds(pre, subject(input)->0, h)
                &&& !holds(post, subject(input)->0, h)
            }
            ||| brought(input) == Some(h) && post == pre
        },
        brought(input) == Some(h) ==> holds(post, subject(input)->0, h) || actions.contains(
            close_of(h),
        ),
        holds(post, user_id, h) && !holds(pre, user_id, h) ==> brought(input) == Some(h)
            && subject(input) == Some(user_id),
{
    if subject(input) != Some(user_id) {
        law_only_the_subject_changes(pre, input, post, actions, user_id);
    }
    match input {
        Input::Event(Event::Leave { user_id: leaver }) if pre.has(leaver) => {
            let news = PeerEvent::PeerLeft { id: leaver };
            let (told, rest) = choose|told: Seq<Uid>, rest: Seq<Action>|
                leave_plan(pre, leaver, told, rest, actions);
            lemma_released(pre, leaver, rest, h);
            lemma_concat_contains(pre.messages(told, news), rest, close_of(h));
        },
        Input::Event(Event::CloseProducer { id, .. }) => {
            if actions.len() > 0 {
                assert(actions[0] == close_of(Holding::Producer(id)));
            }
        },
        Input::Event(Event::OnProducerClose { consumer_id, .. }) => {
            if actions.len() > 0 {
                assert(actions[0] == close_of(Holding::Consumer(consumer_id)));
            }
        },
        Input::Event(Event::OnConsumerTransportClose { consumer_id, .. }) => {
            if actions.len() > 0 {
                assert(actions[0] == close_of(Holding::Consumer(consumer_id)));
            }
        },
        Input::Consumed { .. } => {
            assert(actions.len() > 0 ==> actions.contains(actions[0]));
        },
        Input::Produced { .. } => {
            assert(actions.len() > 0 ==> actions.contains(actions[0]));
        },
        Input::TransportCreated { .. } => {
            assert(actions.len() > 0 ==> actions.contains(actions[0]));
        },
        _ => {},
    }
}

/// The offers that a room makes by some actions.
pub open spec fn offered_by(actions: Seq<Action>) -> Set<Offer> {
    Set::new(
        |o: Offer|
            exists|rtp_caps: RtpCapabilities| #[trigger]
                actions.contains(Action::CanConsume { offer: o, rtp_caps }),
    )
}

/// Everyone who can receive has been offered every producer of everyone else.
pub open spec fn all_offered(room: RoomView, offers: Set<Offer>) -> bool {
    forall|consumer: Uid, producer: Uid, id: ProducerId|
        {
            &&& #[trigger] room.has(consumer)
            &&& room.peer(consumer).rtp_caps is Some
            &&& #[trigger] holds(room, producer, Holding::Producer(id))
            &&& producer != consumer
        } ==> offers.contains(
            Offer {
                consumer_peer_id: consumer,
                producer_peer_id: producer,
                producer_id: id,
                is_share: room.peer(producer).producers[id.0].is_share,
            },
        )
}

proof fn lemma_questions(
    room: RoomView,
    before: Seq<Action>,
    offers: Seq<Offer>,
    after: Seq<Action>,
    o: Offer,
)
    requires
        offers.contains(o),
    ensures
        offered_by(before + room.questions(offers) + after).contains(o),
{
    let all = before + room.questions(offers) + after;
    let i = choose|i: int| 0 <= i < offers.len() && offers[i] == o;
    assert(all[before.len() + i] == room.question(o));
    assert(all.contains(
        Action::CanConsume { offer: o, rtp_caps: room.peer(o.consumer_peer_id).rtp_caps->0 },
    ));
}

/// No input leaves anyone out: where everything had been offered, everything has been offered
/// once the offers that the room makes on the input are counted in.
pub proof fn law_offers_stay_complete(
    pre: RoomView,
    input: Input,
    post: RoomView,
    actions: Seq<Action>,
    offers: Set<Offer>,
)
    requires
        moved(pre, input, post, actions),
        all_offered(pre, offers),
    ensures
        all_offered(post, offers.union(offered_by(actions))),
{
    assert forall|consumer: Uid, producer: Uid, id: ProducerId|
        {
            &&& #[trigger] post.has(consumer)
            &&& post.peer(consumer).rtp_caps is Some
            &&& #[trigger] holds(post, producer, Holding::Producer(id))
            &&& producer != consumer
        } implies offers.union(offered_by(actions)).contains(
        Offer {
            consumer_peer_id: consumer,
            producer_peer_id: producer,
            producer_id: id,
            is_share: post.peer(producer).producers[id.0].is_share,
        },
    ) by {
        let o = Offer {
            consumer_peer_id: consumer,
            producer_peer_id: producer,
            producer_id: id,
            is_share: post.peer(producer).producers[id.0].is_share,
        };
        if subject(input) != Some(consumer) {
            law_only_the_subject_changes(pre, input, post, actions, consumer);
        }
        if subject(input) != Some(producer) {
            law_only_the_subject_changes(pre, input, post, actions, producer);
        }
        let known = pre.has(consumer) && pre.peer(consumer).rtp_caps is Some && holds(
            pre,
            producer,
            Holding::Producer(id),
        ) && pre.peer(producer).producers[id.0].is_share == o.is_share;
        if known {
            assert(offers.contains(o));
        } else if subject(input) == Some(consumer) {
            lemma_newcomer_offered(pre, input, post, actions, o);
        } else {
            lemma_producer_offered(pre, input, post, actions, o);
        }
    }
}

proof fn lemma_newcomer_offered(
    pre: RoomView,
    input: Input,
    post: RoomView,
    actions: Seq<Action>,
    o: Offer,
)
    requires
        moved(pre, input, post, actions),
        subject(input) == Some(o.consumer_peer_id),
        o.producer_peer_id != o.consumer_peer_id,
        post.has(o.consumer_peer_id),
        post.peer(o.consumer_peer_id).rtp_caps is Some,
        !(pre.has(o.consumer_peer_id) && pre.peer(o.consumer_peer_id).rtp_caps is Some),
        holds(pre, o.producer_peer_id, Holding::Producer(o.producer_id)),
        pre.peer(o.producer_peer_id).producers[o.producer_id.0].is_share == o.is_share,
    ensures
        offered_by(actions).contains(o),
{
    match input {
        Input::Event(Event::Join { user_id, rtp_caps }) => {
            let (who, list, told) = choose|who: Vec<Uid>, list: Seq<Offer>, told: Seq<Uid>|
                join_plan(
                    pre,
                    user_id,
                    rtp_caps,
                    post,
                    who,
                    list,
                    told,
                    actions,
                );
            assert(pre.others(user_id).contains(o.producer_peer_id));
            assert(pre.offers_to(user_id).contains(o));
            assert(list.contains(o));
            lemma_questions(
                post,
                roll_call(pre, user_id, who),
                list,
                pre.messages(told, PeerEvent::NewPeerJoined { user_id }),
                o,
            );
        },
        _ => {},
    }
}

proof fn lemma_producer_offered(
    pre: RoomView,
    input: Input,
    post: RoomView,
    actions: Seq<Action>,
    o: Offer,
)
    requires
        moved(pre, input, post, actions),
        subject(input) != Some(o.consumer_peer_id),
        o.producer_peer_id != o.consumer_peer_id,
        pre.has(o.consumer_peer_id),
        pre.peer(o.consumer_peer_id).rtp_caps is Some,
        holds(post, o.producer_peer_id, Holding::Producer(o.producer_id)),
        post.peer(o.producer_peer_id).producers[o.producer_id.0].is_share == o.is_share,
        !(holds(pre, o.producer_peer_id, Holding::Producer(o.producer_id)) && pre.peer(
            o.producer_peer_id,
        ).producers[o.producer_id.0].is_share == o.is_share),
    ensures
        offered_by(actions).contains(o),
{
    if subject(input) != Some(o.producer_peer_id) {
        law_only_the_subject_changes(pre, input, post, actions, o.producer_peer_id);
    }
    match input {
        Input::Produced { user_id, is_share, producer: Some(id) } => {
            let opening = receipt(pre, user_id, id);
            let list = choose|list: Seq<Offer>|
                produce_plan(pre, user_id, id, is_share, list, actions);
            assert(pre.others(user_id).contains(o.consumer_peer_id));
            assert(pre.offers_of(user_id, id, is_share).contains(o));
            assert(list.contains(o));
            lemma_questions(pre, opening, list, Seq::empty(), o);
            assert(actions =~= opening + pre.questions(list) + Seq::<Action>::empty());
        },
        _ => {},
    }
}

/// One thing that happened to a room.
pub struct Move {
    pub pre: RoomView,
    pub input: Input,
    pub post: RoomView,
    pub actions: Seq<Action>,
}

/// What happened to a room since it was empty.
pub open spec fn history(moves: Seq<Move>) -> bool {
    &&& moves.len() > 0
    &&& moves[0].pre.peers == Map::<u64, PeerView>::empty()
    &&& forall|i: int|
        0 <= i < moves.len() ==> moved(
            #[trigger] moves[i].pre,
            moves[i].input,
            moves[i].post,
            moves[i].actions,
        )
    &&& forall|i: int| 0 < i < moves.len() ==> #[trigger] moves[i].pre == moves[i - 1].post
}

/// All the offers that a room has made.
pub open spec fn offers_made(moves: Seq<Move>) -> Set<Offer>
    decreases moves.len(),
{
    if moves.len() == 0 {
        Set::empty()
    } else {
        offers_made(moves.drop_last()).union(offered_by(moves.last().actions))
    }
}

/// At every point of a room's life, everyone who can receive has been offered every producer
/// of everyone else, and the room is sound.
pub proof fn law_everyone_is_offered_everything(moves: Seq<Move>)
    requires
        history(moves),
    ensures
        all_offered(moves.last().post, offers_made(moves)),
        sound(moves.last().post),
    decreases moves.len(),
{
    let last = moves.last();
    let before = moves.drop_last();
    assert(moved(last.pre, last.input, last.post, last.actions));
    if before.len() > 0 {
        assert(history(before)) by {
            assert forall|i: int| 0 <= i < before.len() implies moved(
                #[trigger] before[i].pre,
                before[i].input,
                before[i].post,
                before[i].actions,
            ) by {
                assert(before[i] == moves[i]);
            }
            assert forall|i: int| 0 < i < before.len() implies #[trigger] before[i].pre
                == before[i - 1].post by {
                assert(before[i] == moves[i]);
            }
        }
        law_everyone_is_offered_everything(before);
        assert(last.pre == before.last().post);
    } else {
        assert(last.pre.peers == Map::<u64, PeerView>::empty());
    }
    law_offers_stay_complete(
        last.pre,
        last.input,
        last.post,
        last.actions,
        offers_made(before),
    );
    law_room_stays_sound(last.pre, last.input, last.post, last.actions);
}

proof fn lemma_no_questions_elsewhere(
    room: RoomView,
    before: Seq<Action>,
    offers: Seq<Offer>,
    after: Seq<Action>,
    o: Offer,
)
    requires
        offered_by(before + room.questions(offers) + after).contains(o),
        forall|a: Action| #[trigger] before.contains(a) ==> a !is CanConsume,
        forall|a: Action| #[trigger] after.contains(a) ==> a !is CanConsume,
    ensures
        offers.contains(o),
{
    let all = before + room.questions(offers) + after;
    let caps = choose|rtp_caps: RtpCapabilities| #[trigger]
        all.contains(Action::CanConsume { offer: o, rtp_caps });
    let a = Action::CanConsume { offer: o, rtp_caps: caps };
    lemma_concat_contains(before + room.questions(offers), after, a);
    lemma_concat_contains(before, room.questions(offers), a);
    let i = choose|i: int|
        0 <= i < room.questions(offers).len() && room.questions(offers)[i] == a;
    assert(offers[i] == o);
}

/// An offer is always of a producer that another peer holds, described as it is, to a peer
/// that can receive. Nobody is offered what it produces itself.
pub proof fn law_offers_are_real(
    pre: RoomView,
    input: Input,
    post: RoomView,
    actions: Seq<Action>,
    o: Offer,
)
    requires
        moved(pre, input, post, actions),
        offered_by(actions).contains(o),
    ensures
        o.consumer_peer_id != o.producer_peer_id,
        post.has(o.consumer_peer_id),
        post.peer(o.consumer_peer_id).rtp_caps is Some,
        holds(post, o.producer_peer_id, Holding::Producer(o.producer_id)),
        post.peer(o.producer_peer_id).producers[o.producer_id.0].is_share == o.is_share,
{
    match input {
        Input::Event(Event::Join { user_id, rtp_caps }) if pre.has(user_id) && !pre.peer(
            user_id,
        ).joined => {
            let (who, list, told) = choose|who: Vec<Uid>, list: Seq<Offer>, told: Seq<Uid>|
                join_plan(
                    pre,
                    user_id,
                    rtp_caps,
                    post,
                    who,
                    list,
                    told,
                    actions,
                );
            lemma_no_questions_elsewhere(
                post,
                roll_call(pre, user_id, who),
                list,
                pre.messages(told, PeerEvent::NewPeerJoined { user_id }),
                o,
            );
        },
        Input::Produced { user_id, is_share, producer: Some(id) } if pre.joined(user_id) => {
            let opening = receipt(pre, user_id, id);
            let list = choose|list: Seq<Offer>|
                produce_plan(pre, user_id, id, is_share, list, actions);
            assert(actions =~= opening + pre.questions(list) + Seq::<Action>::empty());
            lemma_no_questions_elsewhere(pre, opening, list, Seq::empty(), o);
        },
        Input::Event(Event::Leave { user_id }) if pre.has(user_id) => {
            let news = PeerEvent::PeerLeft { id: user_id };
            let (told, rest) = choose|told: Seq<Uid>, rest: Seq<Action>|
                leave_plan(pre, user_id, told, rest, actions);
            let caps = choose|rtp_caps: RtpCapabilities| #[trigger]
                actions.contains(Action::CanConsume { offer: o, rtp_caps });
            lemma_concat_contains(
                pre.messages(told, news),
                rest,
                Action::CanConsume { offer: o, rtp_caps: caps },
            );
        },
        _ => {},
    }
}

/// A room speaks to its own peers only, and to whoever is knocking.
pub proof fn law_messages_stay_in_the_room(
    pre: RoomView,
    input: Input,
    post: RoomView,
    actions: Seq<Action>,
    tx: PeerTx,
    event: PeerEvent,
)
    requires
        moved(pre, input, post, actions),
        actions.contains(Action::Send { tx, event }),
    ensures
        (exists|u: Uid| #[trigger] pre.has(u) && pre.peer(u).tx == tx) || (input matches
            Input::Event(Event::KnockKnock { tx: knocking, .. }) && knocking == tx),
{
    let a = Action::Send { tx, event };
    match input {
        Input::Event(Event::Join { user_id, rtp_caps }) if pre.has(user_id) && !pre.peer(
            user_id,
        ).joined => {
            let (who, list, told) = choose|who: Vec<Uid>, list: Seq<Offer>, told: Seq<Uid>|
                join_plan(
                    pre,
                    user_id,
                    rtp_caps,
                    post,
                    who,
                    list,
                    told,
                    actions,
                );
            let opening = roll_call(pre, user_id, who);
            let closing = pre.messages(told, PeerEvent::NewPeerJoined { user_id });
            lemma_concat_contains(opening + post.questions(list), closing, a);
            lemma_concat_contains(opening, post.questions(list), a);
            if closing.contains(a) {
                lemma_recipient(pre, told, PeerEvent::NewPeerJoined { user_id }, a);
            }
        },
        Input::Produced { user_id, is_share, producer: Some(id) } if pre.joined(user_id) => {
            let opening = receipt(pre, user_id, id);
            let list = choose|list: Seq<Offer>|
                produce_plan(pre, user_id, id, is_share, list, actions);
            lemma_concat_contains(opening, pre.questions(list), a);
        },
        Input::Event(Event::Leave { user_id }) if pre.has(user_id) => {
            let news = PeerEvent::PeerLeft { id: user_id };
            let (told, rest) = choose|told: Seq<Uid>, rest: Seq<Action>|
                leave_plan(pre, user_id, told, rest, actions);
            lemma_concat_contains(pre.messages(told, news), rest, a);
            if pre.messages(told, news).contains(a) {
                lemma_recipient(pre, told, news, a);
            }
        },
        _ => {},
    }
}

proof fn lemma_recipient(room: RoomView, told: Seq<Uid>, event: PeerEvent, a: Action)
    requires
        room.messages(told, event).contains(a),
        forall|u: Uid| #[trigger] told.contains(u) ==> room.has(u),
    ensures
        exists|u: Uid| #[trigger] room.has(u) && a == (Action::Send { tx: room.peer(u).tx, event }),
{
    let i = choose|i: int|
        0 <= i < room.messages(told, event).len() && room.messages(told, event)[i] == a;
    assert(told.contains(told[i]));
    assert(room.has(told[i]));
}

proof fn lemma_addressed(room: RoomView, told: Seq<Uid>, event: PeerEvent, u: Uid)
    requires
        told.contains(u),
    ensures
        room.messages(told, event).contains(Action::Send { tx: room.peer(u).tx, event }),
{
    let i = choose|i: int| 0 <= i < told.len() && told[i] == u;
    assert(room.messages(told, event)[i] == (Action::Send { tx: room.peer(u).tx, event }));
}

/// When a peer joins the conversation, and when one that had joined leaves, everyone else in
/// the room is told.
pub proof fn law_everyone_hears(
    pre: RoomView,
    event: Event,
    post: RoomView,
    actions: Seq<Action>,
    other: Uid,
)
    requires
        handled(pre, event, post, actions),
        pre.has(other),
    ensures
        event matches Event::Join { user_id, .. } && user_id != other && pre.has(user_id)
            && !pre.joined(user_id) ==> actions.contains(
            Action::Send {
                tx: pre.peer(other).tx,
                event: PeerEvent::NewPeerJoined { user_id: sender(event)->0 },
            },
        ),
        event matches Event::Leave { user_id } && user_id != other && pre.joined(user_id)
            ==> actions.contains(
            Action::Send {
                tx: pre.peer(other).tx,
                event: PeerEvent::PeerLeft { id: sender(event)->0 },
            },
        ),
{
    match event {
        Event::Join { user_id, rtp_caps } if user_id != other && pre.has(user_id) && !pre.peer(
            user_id,
        ).joined => {
            let news = PeerEvent::NewPeerJoined { user_id };
            let (who, list, told) = choose|who: Vec<Uid>, list: Seq<Offer>, told: Seq<Uid>|
                join_plan(
                    pre,
                    user_id,
                    rtp_caps,
                    post,
                    who,
                    list,
                    told,
                    actions,
                );
            let opening = roll_call(pre, user_id, who);
            assert(pre.others(user_id).contains(other));
            lemma_addressed(pre, told, news, other);
            lemma_concat_contains(
                opening + post.questions(list),
                pre.messages(told, news),
                Action::Send { tx: pre.peer(other).tx, event: news },
            );
        },
        Event::Leave { user_id } if user_id != other && pre.joined(user_id) => {
            let news = PeerEvent::PeerLeft { id: user_id };
            let (told, rest) = choose|told: Seq<Uid>, rest: Seq<Action>|
                leave_plan(pre, user_id, told, rest, actions);
            assert(pre.others(user_id).contains(other));
            lemma_addressed(pre, told, news, other);
            lemma_concat_contains(
                pre.messages(told, news),
                rest,
                Action::Send { tx: pre.peer(other).tx, event: news },
            );
        },
        _ => {},
    }
}

/// Whoever has been let in keeps its place: a second knock under the same name is turned away,
/// on the channel that it came with, and the room stays as it was.
pub proof fn law_no_double_entry(
    pre: RoomView,
    user_id: Uid,
    tx: PeerTx,
    mid: RoomView,
    first: Seq<Action>,
    second_tx: PeerTx,
    post: RoomView,
    second: Seq<Action>,
)
    requires
        handled(pre, Event::KnockKnock { user_id, tx }, mid, first),
        handled(mid, Event::KnockKnock { user_id, tx: second_tx }, post, second),
    ensures
        mid.has(user_id),
        post == mid,
        second == seq![
            Action::Send { tx: second_tx, event: PeerEvent::Denied },
            Action::Forget { tx: second_tx },
        ],
{
}

/// Leaving undoes knocking: the room is as before, nobody was told of the visit, and only the
/// visitor's channel is let go.
pub proof fn law_leaving_undoes_knocking(
    pre: RoomView,
    user_id: Uid,
    tx: PeerTx,
    mid: RoomView,
    first: Seq<Action>,
    post: RoomView,
    second: Seq<Action>,
)
    requires
        !pre.has(user_id),
        handled(pre, Event::KnockKnock { user_id, tx }, mid, first),
        handled(mid, Event::Leave { user_id }, post, second),
    ensures
        post == pre,
        first.len() == 1 && first[0] is Send && first[0]->Send_tx == tx,
        second == seq![Action::Forget { tx }],
{
    assert(post.peers =~= pre.peers);
    let (told, rest) = choose|told: Seq<Uid>, rest: Seq<Action>|
        leave_plan(mid, user_id, told, rest, second);
    let peer = mid.peer(user_id);
    assert(told =~= Seq::empty()) by {
        if told.len() > 0 {
            assert(told.contains(told[0]));
        }
    }
    let (ts, cs, ps) = choose|ts: Seq<u128>, cs: Seq<u128>, ps: Seq<u128>|
        {
            &&& #[trigger] lists(ts, peer.transports.dom())
            &&& #[trigger] lists(cs, peer.consumers)
            &&& #[trigger] lists(ps, peer.producers.dom())
            &&& rest =~= seq![Action::Forget { tx: peer.tx }] + closing(ts, cs, ps)
        };
    assert(ts.len() == 0 && cs.len() == 0 && ps.len() == 0) by {
        assert(ts.len() > 0 ==> ts.contains(ts[0]));
        assert(cs.len() > 0 ==> cs.contains(cs[0]));
        assert(ps.len() > 0 ==> ps.contains(ps[0]));
    }
    assert(second =~= seq![Action::Forget { tx }]);
}

/// A peer joins once: joining again does nothing.
pub proof fn law_joining_again_does_nothing(
    pre: RoomView,
    user_id: Uid,
    rtp_caps: Option<RtpCapabilities>,
    mid: RoomView,
    first: Seq<Action>,
    second_caps: Option<RtpCapabilities>,
    post: RoomView,
    second: Seq<Action>,
)
    requires
        handled(pre, Event::Join { user_id, rtp_caps }, mid, first),
        handled(mid, Event::Join { user_id, rtp_caps: second_caps }, post, second),
    ensures
        pre.has(user_id) ==> mid.joined(user_id),
        post == mid,
        second == Seq::<Action>::empty(),
{
}

/// Whoever is not in the room can do nothing there but knock.
pub proof fn law_outsiders_can_only_knock(
    pre: RoomView,
    event: Event,
    post: RoomView,
    actions: Seq<Action>,
)
    requires
        handled(pre, event, post, actions),
        sender(event) is Some,
        !pre.has(sender(event)->0),
        event !is KnockKnock,
    ensures
        post == pre,
        actions == Seq::<Action>::empty(),
{
}

/// An event by which a peer handles media.
pub open spec fn handles_media(event: Event) -> bool {
    match event {
        Event::Produce { .. } => true,
        Event::CloseProducer { .. } => true,
        Event::PauseProducer { .. } => true,
        Event::ResumeProducer { .. } => true,
        Event::PauseConsumer { .. } => true,
        Event::ResumeConsumer { .. } => true,
        Event::SetConsumerLayers { .. } => true,
        Event::SetConsumerPriority { .. } => true,
        _ => false,
    }
}

/// Whoever has not joined the conversation handles no media.
pub proof fn law_no_media_before_joining(
    pre: RoomView,
    event: Event,
    post: RoomView,
    actions: Seq<Action>,
)
    requires
        handled(pre, event, post, actions),
        handles_media(event),
        !pre.joined(sender(event)->0),
    ensures
        post == pre,
        actions == Seq::<Action>::empty(),
{
}

/// An offer that the router allows, to a peer with a transport to consume on, ends in a
/// consumer that the peer holds and was told of, as soon as the media layer makes one. It is
/// asked for one that starts paused.
pub proof fn law_offer_becomes_consumer(
    pre: RoomView,
    offer: Offer,
    transport: TransportId,
    asked: Seq<Action>,
    consumer: NewConsumer,
    post: RoomView,
    told: Seq<Action>,
)
    requires
        pre.has(offer.consumer_peer_id),
        pre.peer(offer.consumer_peer_id).rtp_caps is Some,
        consumes(pre.peer(offer.consumer_peer_id), transport.0),
        moved(pre, Input::CanConsume { offer, can_consume: true }, pre, asked),
        moved(pre, Input::Consumed { offer, consumer: Some(consumer) }, post, told),
    ensures
        asked.len() == 1,
        asked[0] matches Action::Consume { offer: o, transport_id, options } && o == offer
            && consumes(pre.peer(offer.consumer_peer_id), transport_id.0) && options.paused
            && options.producer_id == offer.producer_id,
        holds(post, offer.consumer_peer_id, Holding::Consumer(consumer.id)),
        told.contains(
            Action::Send {
                tx: pre.peer(offer.consumer_peer_id).tx,
                event: PeerEvent::OnNewConsumer {
                    producer_peer_id: offer.producer_peer_id,
                    producer_id: offer.producer_id,
                    consumer_id: consumer.id,
                    kind: consumer.kind,
                    rtp_params: consumer.rtp_params,
                    consumer_type: consumer.consumer_type,
                    producer_paused: consumer.producer_paused,
                    is_share: offer.is_share,
                },
            },
        ),
{
    assert(told.contains(told[1]));
}

/// Whatever a peer says to its room, it says in its own name; it never knocks again, and it
/// takes its leave exactly when its client has closed the connection.
pub proof fn law_peers_speak_for_themselves(user_id: Uid, event: PeerEvent)
    ensures
        forall|said: Event| #[trigger]
            relays_of(user_id, event).contains(Relay::ToRoom(said)) ==> sender(said) == Some(
                user_id,
            ) && said !is KnockKnock && (said is Leave ==> event is Close),
        event is Close ==> relays_of(user_id, event).contains(
            Relay::ToRoom(Event::Leave { user_id }),
        ),
{
    let relays = relays_of(user_id, event);
    assert(event is Close ==> relays.contains(relays[1]));
}

/// A client's message touches no one's peer but its own.
pub proof fn law_clients_touch_only_their_own_peer(
    pre: RoomView,
    user_id: Uid,
    msg: Client2Server,
    post: RoomView,
    actions: Seq<Action>,
    other: Uid,
)
    requires
        handled(pre, request_of(user_id, msg), post, actions),
        other != user_id,
    ensures
        post.has(other) == pre.has(other),
        pre.has(other) ==> post.peer(other) == pre.peer(other),
{
    law_only_the_subject_changes(
        pre,
        Input::Event(request_of(user_id, msg)),
        post,
        actions,
        other,
    );
}

/// When a producer closes, each consumer attached to it goes too: the consumer's owner has its
/// room drop the consumer, and tells its client.
pub proof fn law_consumers_end_with_their_producer(
    pre: RoomView,
    user_id: Uid,
    consumer_id: ConsumerId,
    producer_peer_id: Uid,
    post: RoomView,
    actions: Seq<Action>,
)
    requires
        holds(pre, user_id, Holding::Consumer(consumer_id)),
        ({
            let event = event_of(ConsumerSignal::ProducerClose, consumer_id, producer_peer_id);
            &&& relays_of(user_id, event).len() > 0
            &&& relays_of(user_id, event)[0] matches Relay::ToRoom(said)
            &&& handled(pre, said, post, actions)
        }),
    ensures
        relays_of(
            user_id,
            event_of(ConsumerSignal::ProducerClose, consumer_id, producer_peer_id),
        ).contains(
            Relay::ToClient(Server2Client::ConsumerClosed { consumer_id, producer_peer_id }),
        ),
        !holds(post, user_id, Holding::Consumer(consumer_id)),
        actions == seq![Action::CloseConsumer { id: consumer_id }],
{
    let relays = relays_of(
        user_id,
        event_of(ConsumerSignal::ProducerClose, consumer_id, producer_peer_id),
    );
    assert(relays.contains(relays[1]));
}

} // verus!
