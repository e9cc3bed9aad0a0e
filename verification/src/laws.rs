//! What holds of every peer.
//!
//! The laws about a whole procedure speak of its run without other calls in between; those about a
//! step hold of every step, whatever other calls have done to the peer since the step before.

use vstd::multiset::Multiset;
use vstd::prelude::*;

use std::sync::Arc;

use webrtc::peer_connection::configuration::RTCConfiguration;

use crate::message::{
    ConnectionState, IceCandidateInit, SdpType, SessionDescription, SignalMessage,
};
use crate::options::PeerOptions;
use crate::protocol::{Moment, PeerView};
use crate::step::{Action, Event, PeerError, Purpose, Reply, Sequel, Stage};

verus! {

/// A call that starts a procedure.
pub enum Call<D> {
    Init,
    Signal(SignalMessage),
    Close,
    NegotiationNeeded,
    StateChange(ConnectionState),
    CandidateGathered(Result<IceCandidateInit, webrtc::Error>),
    DataChannel(Arc<D>),
    DataChannelOpen,
    DataChannelMessage(Vec<u8>),
    DataChannelError(webrtc::Error),
}

impl<C, D, F> PeerView<C, D, F> {
    /// The moment that a call leads to.
    pub open spec fn start(self, call: Call<D>) -> Moment<C, D, F> {
        match call {
            Call::Init => self.init(),
            Call::Signal(message) => self.signal(message),
            Call::Close => self.close(true),
            Call::NegotiationNeeded => self.negotiate(),
            Call::StateChange(state) => if crate::protocol::is_over(state) {
                self.close(true)
            } else {
                self.finish(Ok(()))
            },
            Call::CandidateGathered(json) => self.candidate_gathered(json),
            Call::DataChannel(channel) => self.on_data_channel(channel),
            Call::DataChannelOpen => self.notify(Event::Connect),
            Call::DataChannelMessage(data) => self.notify(Event::Data(data)),
            Call::DataChannelError(error) => self.finish(Err(PeerError::Transport(error))),
        }
    }

    /// The same peer without a connection and a data channel.
    pub open spec fn disconnected(self) -> PeerView<C, D, F> {
        PeerView { connection: None, data_channel: None, ..self }
    }

    /// The same peer with no candidate waiting.
    pub open spec fn drained(self) -> PeerView<C, D, F> {
        PeerView { pending_candidates: Seq::empty(), ..self }
    }

    /// Whether `other` has the same name, role, settings and callbacks.
    pub open spec fn set_up_like(self, other: PeerView<C, D, F>) -> bool {
        &&& self.id == other.id
        &&& self.initiator == other.initiator
        &&& self.connection_config == other.connection_config
        &&& self.offer_config == other.offer_config
        &&& self.answer_config == other.answer_config
        &&& self.data_channel_name == other.data_channel_name
        &&& self.data_channel_config == other.data_channel_config
        &&& self.on_signal == other.on_signal
        &&& self.on_data == other.on_data
        &&& self.on_connect == other.on_connect
        &&& self.on_close == other.on_close
        &&& self.on_negotiated == other.on_negotiated
    }
}

/// The calls of `callback` that tell it of `event`: one, if there is a callback.
pub open spec fn told<C, D, F>(callback: Option<Arc<F>>, event: Event) -> Seq<Action<C, D, F>> {
    match callback {
        Some(callback) => seq![Action::Notify { callback, event }],
        None => seq![],
    }
}

/// `n` replies that all went well.
pub open spec fn dones<C, D>(n: nat) -> Seq<Reply<C, D>> {
    Seq::new(n, |i: int| Reply::Done)
}

/// One request per candidate, in order.
pub open spec fn additions<C, D, F>(
    connection: Arc<C>,
    candidates: Seq<IceCandidateInit>,
) -> Seq<Action<C, D, F>> {
    candidates.map_values(
        |candidate: IceCandidateInit| Action::AddIceCandidate { connection, candidate },
    )
}

impl<C, D, F> Moment<C, D, F> {
    /// The next moment, when the action has had `reply`.
    pub open spec fn next(self, reply: Reply<C, D>) -> Moment<C, D, F> {
        self.peer.resume(self.stage, self.queue, reply)
    }

    /// Whether `replies` are replies that the actions from here on can have, one after the other.
    pub open spec fn admits(self, replies: Seq<Reply<C, D>>) -> bool
        decreases replies.len(),
    {
        replies.len() == 0 || (self.stage.awaits(replies[0]) && self.next(replies[0]).admits(
            replies.drop_first(),
        ))
    }

    /// The moment after `replies`.
    pub open spec fn after(self, replies: Seq<Reply<C, D>>) -> Moment<C, D, F>
        decreases replies.len(),
    {
        if replies.len() == 0 {
            self
        } else {
            self.next(replies[0]).after(replies.drop_first())
        }
    }

    /// The actions from here on, up to the one after `replies`.
    pub open spec fn actions(self, replies: Seq<Reply<C, D>>) -> Seq<Action<C, D, F>>
        decreases replies.len(),
    {
        if replies.len() == 0 {
            seq![self.action]
        } else {
            seq![self.action] + self.next(replies[0]).actions(replies.drop_first())
        }
    }

    /// Whether, with `replies`, the procedure does `actions` from here on and ends well, with the
    /// peer in state `peer`.
    pub open spec fn runs(
        self,
        replies: Seq<Reply<C, D>>,
        actions: Seq<Action<C, D, F>>,
        peer: PeerView<C, D, F>,
    ) -> bool {
        &&& self.admits(replies)
        &&& self.actions(replies) == actions.push(Action::Finish { result: Ok(()) })
        &&& self.after(replies) == (Moment {
            peer,
            action: Action::Finish { result: Ok(()) },
            stage: Stage::Finished,
            queue: Seq::empty(),
        })
    }

    /// Whether the stage says what the action is, and candidates are queued only while they are
    /// being added.
    pub open spec fn consistent(self) -> bool {
        &&& self.stage is Draining || self.queue.len() == 0
        &&& match (self.stage, self.action) {
            (Stage::Opening(_), Action::NewConnection { .. }) => true,
            (Stage::Observing(c, _), Action::Observe { connection }) => c == connection,
            (Stage::Listening(_), Action::Listen { .. }) => true,
            (Stage::CreatingChannel(_), Action::CreateDataChannel { .. }) => true,
            (Stage::ObservingChannel(d, _), Action::ObserveChannel { channel }) => d == channel,
            (Stage::Querying(c, _), Action::QueryRemoteDescription { connection }) => c
                == connection,
            (Stage::Adding, Action::AddIceCandidate { .. }) => true,
            (
                Stage::SettingRemote(c, kind),
                Action::SetRemoteDescription { connection, description },
            ) => c == connection && kind == description.sdp_type,
            (Stage::Draining(c, _), Action::AddIceCandidate { connection, .. }) => c == connection,
            (Stage::CreatingOffer(c), Action::CreateOffer { connection, .. }) => c == connection,
            (Stage::SettingOffer(d), Action::SetLocalDescription { description, .. }) => d
                == description,
            (Stage::CreatingAnswer(c), Action::CreateAnswer { connection, .. }) => c == connection,
            (Stage::SettingAnswer(d), Action::SetLocalDescription { description, .. }) => d
                == description,
            (Stage::Notifying(_), Action::Notify { .. }) => true,
            (Stage::ClosingChannel(_), Action::CloseChannel { .. }) => true,
            (Stage::ClosingConnection(_), Action::CloseConnection { .. }) => true,
            (Stage::Finished, Action::Finish { .. }) => true,
            _ => false,
        }
    }
}

/// A run falls into the run of its first replies and the run of the others.
proof fn lemma_split<C, D, F>(
    start: Moment<C, D, F>,
    first: Seq<Reply<C, D>>,
    rest: Seq<Reply<C, D>>,
)
    ensures
        start.admits(first + rest) == (start.admits(first) && start.after(first).admits(rest)),
        start.after(first + rest) == start.after(first).after(rest),
        start.actions(first + rest) == start.actions(first).drop_last() + start.after(
            first,
        ).actions(rest),
    decreases first.len(),
{
    if first.len() == 0 {
        assert(first + rest =~= rest);
        assert(start.actions(first).drop_last() + start.actions(rest) =~= start.actions(rest));
    } else {
        let next = start.next(first[0]);
        assert((first + rest).drop_first() =~= first.drop_first() + rest);
        lemma_split(next, first.drop_first(), rest);
        lemma_actions_not_empty(next, first.drop_first());
        assert(start.actions(first).drop_last() =~= seq![start.action] + next.actions(
            first.drop_first(),
        ).drop_last());
        assert(start.actions(first + rest) =~= start.actions(first).drop_last() + start.after(
            first,
        ).actions(rest));
    }
}

proof fn lemma_actions_not_empty<C, D, F>(start: Moment<C, D, F>, replies: Seq<Reply<C, D>>)
    ensures
        start.actions(replies).len() == replies.len() + 1,
    decreases replies.len(),
{
    if replies.len() > 0 {
        lemma_actions_not_empty(start.next(replies[0]), replies.drop_first());
    }
}

/// The queue is added in order.
proof fn lemma_drain<C, D, F>(
    peer: PeerView<C, D, F>,
    connection: Arc<C>,
    kind: SdpType,
    queue: Seq<IceCandidateInit>,
)
    ensures
        ({
            let start = peer.drain(connection, kind, queue);
            &&& start.admits(dones(queue.len()))
            &&& start.after(dones(queue.len())) == peer.described(kind)
            &&& start.actions(dones(queue.len())) == additions::<C, D, F>(connection, queue).push(
                peer.described(kind).action,
            )
        }),
    decreases queue.len(),
{
    let start = peer.drain(connection, kind, queue);
    let replies = dones::<C, D>(queue.len());
    if queue.len() == 0 {
        assert(additions::<C, D, F>(connection, queue).push(peer.described(kind).action) =~= seq![
            peer.described(kind).action,
        ]);
    } else {
        let rest = queue.drop_first();
        lemma_drain(peer, connection, kind, rest);
        assert(replies.drop_first() =~= dones(rest.len()));
        assert(start.next(replies[0]) == peer.drain(connection, kind, rest));
        assert(additions::<C, D, F>(connection, queue).push(peer.described(kind).action) =~= seq![
            start.action,
        ] + additions::<C, D, F>(connection, rest).push(peer.described(kind).action));
    }
}

/// A reply in front of a run.
proof fn lemma_prepend<C, D, F>(
    start: Moment<C, D, F>,
    reply: Reply<C, D>,
    replies: Seq<Reply<C, D>>,
    actions: Seq<Action<C, D, F>>,
    peer: PeerView<C, D, F>,
)
    requires
        start.stage.awaits(reply),
        start.next(reply).runs(replies, actions, peer),
    ensures
        start.runs(seq![reply] + replies, seq![start.action] + actions, peer),
{
    assert((seq![reply] + replies).drop_first() =~= replies);
    assert(seq![start.action] + actions.push(Action::Finish { result: Ok(()) }) =~= (seq![
        start.action,
    ] + actions).push(Action::Finish { result: Ok(()) }));
}

/// A run in front of a run.
proof fn lemma_join<C, D, F>(
    start: Moment<C, D, F>,
    first: Seq<Reply<C, D>>,
    before: Seq<Action<C, D, F>>,
    replies: Seq<Reply<C, D>>,
    actions: Seq<Action<C, D, F>>,
    peer: PeerView<C, D, F>,
)
    requires
        start.admits(first),
        start.actions(first) == before.push(start.after(first).action),
        start.after(first).runs(replies, actions, peer),
    ensures
        start.runs(first + replies, before + actions, peer),
{
    lemma_split(start, first, replies);
    assert(before.push(start.after(first).action).drop_last() =~= before);
    assert(before + actions.push(Action::Finish { result: Ok(()) }) =~= (before + actions).push(
        Action::Finish { result: Ok(()) },
    ));
}

/// The run of four replies, written out.
proof fn lemma_four<C, D, F>(start: Moment<C, D, F>, replies: Seq<Reply<C, D>>)
    requires
        replies.len() == 4,
    ensures
        ({
            let first = start.next(replies[0]);
            let second = first.next(replies[1]);
            let third = second.next(replies[2]);
            let fourth = third.next(replies[3]);
            &&& start.admits(replies) == (start.stage.awaits(replies[0]) && first.stage.awaits(
                replies[1],
            ) && second.stage.awaits(replies[2]) && third.stage.awaits(replies[3]))
            &&& start.after(replies) == fourth
            &&& start.actions(replies) == seq![
                start.action,
                first.action,
                second.action,
                third.action,
                fourth.action,
            ]
        }),
{
    reveal_with_fuel(Moment::admits, 5);
    reveal_with_fuel(Moment::after, 5);
    reveal_with_fuel(Moment::actions, 5);
    let rest = replies.drop_first();
    assert(rest[0] == replies[1]);
    assert(rest.drop_first()[0] == replies[2]);
    assert(rest.drop_first().drop_first()[0] == replies[3]);
    assert(rest.drop_first().drop_first().drop_first().len() == 0);
}

/// The end of a procedure is a run of its own.
proof fn lemma_finished<C, D, F>(peer: PeerView<C, D, F>)
    ensures
        peer.finish(Ok(())).runs(seq![], seq![], peer),
{
    assert(seq![Action::<C, D, F>::Finish { result: Ok(()) }] =~= seq![].push(
        Action::Finish { result: Ok(()) },
    ));
}

/// How often a callback is called that is to be told of one thing.
pub open spec fn count<F>(callback: Option<Arc<F>>) -> nat {
    if callback is Some {
        1
    } else {
        0
    }
}

/// An event comes to the callback for it, if there is one, and the peer stays as it is.
pub proof fn law_notify<C, D, F>(peer: PeerView<C, D, F>, event: Event)
    ensures
        peer.notify(event).runs(
            dones(count(peer.callback_for(event))),
            told(peer.callback_for(event), event),
            peer,
        ),
{
    let start = peer.notify(event);
    lemma_finished(peer);
    if peer.callback_for(event) is Some {
        lemma_prepend(start, Reply::Done, seq![], seq![], peer);
        assert(seq![Reply::<C, D>::Done] + seq![] =~= dones(1));
        assert(seq![start.action] + seq![] =~= told(peer.callback_for(event), event));
    } else {
        assert(dones::<C, D>(0) =~= seq![]);
    }
}

/// A message comes to the signal callback, if there is one, and what follows it happens.
proof fn lemma_signal_out<C, D, F>(
    peer: PeerView<C, D, F>,
    message: SignalMessage,
    sequel: Sequel,
    replies: Seq<Reply<C, D>>,
    actions: Seq<Action<C, D, F>>,
)
    requires
        peer.signalled(sequel).runs(replies, actions, peer),
    ensures
        peer.signal_out(message, sequel).runs(
            dones::<C, D>(count(peer.on_signal)) + replies,
            told(peer.on_signal, Event::Signal(message)) + actions,
            peer,
        ),
{
    let start = peer.signal_out(message, sequel);
    if peer.on_signal is Some {
        lemma_prepend(start, Reply::Done, replies, actions, peer);
        assert(seq![Reply::<C, D>::Done] =~= dones(1));
        assert(seq![start.action] =~= told(peer.on_signal, Event::Signal(message)));
    } else {
        assert(dones::<C, D>(0) + replies =~= replies);
        assert(told::<C, D, F>(peer.on_signal, Event::Signal(message)) + actions =~= actions);
    }
}

/// A negotiation that goes well leaves the peer as it is. The initiator makes an offer, sets it as
/// its own description and sends it; without a connection it does nothing. The other peer sends the
/// request for an offer, and nothing else, whether it has a connection or not.
pub proof fn law_negotiation<C, D, F>(
    peer: PeerView<C, D, F>,
    connection: Arc<C>,
    offer: SessionDescription,
)
    ensures
        peer.initiator && peer.connection == Some(connection) ==> peer.negotiate().runs(
            seq![Reply::Description(offer), Reply::Done] + dones(count(peer.on_signal)),
            seq![
                Action::CreateOffer { connection, offer_config: peer.offer_config },
                Action::SetLocalDescription { connection, description: offer },
            ] + told(peer.on_signal, Event::Signal(SignalMessage::Offer(offer))),
            peer,
        ),
        peer.initiator && peer.connection is None ==> peer.negotiate() == peer.finish(Ok(())),
        !peer.initiator ==> peer.negotiate().runs(
            dones(count(peer.on_signal)),
            told(peer.on_signal, Event::Signal(SignalMessage::Renegotiate)),
            peer,
        ),
{
    let sent = dones::<C, D>(count(peer.on_signal));
    lemma_finished(peer);
    if peer.initiator && peer.connection == Some(connection) {
        let message = SignalMessage::Offer(offer);
        let telling = told::<C, D, F>(peer.on_signal, Event::Signal(message));
        let start = peer.negotiate();
        let made = start.next(Reply::Description(offer));
        lemma_signal_out(peer, message, Sequel::Finish, seq![], seq![]);
        assert(sent + seq![] =~= sent);
        assert(telling + seq![] =~= telling);
        lemma_prepend(made, Reply::Done, sent, telling, peer);
        lemma_prepend(
            start,
            Reply::Description(offer),
            seq![Reply::Done] + sent,
            seq![made.action] + telling,
            peer,
        );
        assert(seq![Reply::Description(offer)] + (seq![Reply::Done] + sent) =~= seq![
            Reply::Description(offer),
            Reply::Done,
        ] + sent);
        assert(seq![start.action] + (seq![made.action] + telling) =~= seq![
            start.action,
            made.action,
        ] + telling);
    } else if !peer.initiator {
        let telling = told::<C, D, F>(peer.on_signal, Event::Signal(SignalMessage::Renegotiate));
        lemma_signal_out(peer, SignalMessage::Renegotiate, Sequel::Finish, seq![], seq![]);
        assert(sent + seq![] =~= sent);
        assert(telling + seq![] =~= telling);
    }
}

/// What follows an offer that was applied: the answer is made, set and sent.
proof fn lemma_answer<C, D, F>(
    peer: PeerView<C, D, F>,
    connection: Arc<C>,
    answer: SessionDescription,
)
    requires
        peer.connection == Some(connection),
    ensures
        peer.described(SdpType::Offer).runs(
            seq![Reply::Description(answer), Reply::Done] + (dones::<C, D>(count(peer.on_signal))
                + dones(count(peer.on_negotiated))),
            seq![
                Action::CreateAnswer { connection, answer_config: peer.answer_config },
                Action::SetLocalDescription { connection, description: answer },
            ] + (told::<C, D, F>(peer.on_signal, Event::Signal(SignalMessage::Answer(answer)))
                + told(peer.on_negotiated, Event::Negotiated)),
            peer,
        ),
{
    let message = SignalMessage::Answer(answer);
    let start = peer.described(SdpType::Offer);
    let made = start.next(Reply::Description(answer));
    let replies = dones::<C, D>(count(peer.on_signal)) + dones(count(peer.on_negotiated));
    let telling = told::<C, D, F>(peer.on_signal, Event::Signal(message)) + told(
        peer.on_negotiated,
        Event::Negotiated,
    );
    law_notify(peer, Event::Negotiated);
    lemma_signal_out(
        peer,
        message,
        Sequel::Negotiated,
        dones(count(peer.on_negotiated)),
        told(peer.on_negotiated, Event::Negotiated),
    );
    lemma_prepend(made, Reply::Done, replies, telling, peer);
    lemma_prepend(
        start,
        Reply::Description(answer),
        seq![Reply::Done] + replies,
        seq![made.action] + telling,
        peer,
    );
    assert(seq![Reply::Description(answer)] + (seq![Reply::Done] + replies) =~= seq![
        Reply::Description(answer),
        Reply::Done,
    ] + replies);
    assert(seq![start.action] + (seq![made.action] + telling) =~= seq![start.action, made.action]
        + telling);
}

/// A description that is applied: first it is set, then the waiting candidates are added in the
/// order in which they came, and then what `described` says happens, with no candidate waiting.
proof fn lemma_apply<C, D, F>(
    peer: PeerView<C, D, F>,
    connection: Arc<C>,
    description: SessionDescription,
    replies: Seq<Reply<C, D>>,
    actions: Seq<Action<C, D, F>>,
)
    requires
        peer.connection == Some(connection),
        peer.drained().described(description.sdp_type).runs(replies, actions, peer.drained()),
    ensures
        peer.handle_session_description(description).runs(
            dones::<C, D>(1 + peer.pending_candidates.len()) + replies,
            seq![Action::<C, D, F>::SetRemoteDescription { connection, description }] + additions(
                connection,
                peer.pending_candidates,
            ) + actions,
            peer.drained(),
        ),
{
    let pending = peer.pending_candidates;
    let kind = description.sdp_type;
    let start = peer.handle_session_description(description);
    let draining = start.next(Reply::Done);
    let added = dones::<C, D>(pending.len());
    let adding = additions::<C, D, F>(connection, pending);
    lemma_drain(peer.drained(), connection, kind, pending);
    assert(draining == peer.drained().drain(connection, kind, pending));
    lemma_join(draining, added, adding, replies, actions, peer.drained());
    lemma_prepend(start, Reply::Done, added + replies, adding + actions, peer.drained());
    assert(seq![Reply::<C, D>::Done] + (added + replies) =~= dones::<C, D>(1 + pending.len())
        + replies);
    assert(seq![start.action] + (adding + actions) =~= seq![start.action] + adding + actions);
}

/// An offer that is handled well is applied, the candidates that were waiting for it are added in
/// the order in which they came, each once, and then the answer is made, set as the peer's own
/// description and sent, and the peer tells that it has negotiated. No candidate waits afterwards,
/// and nothing else of the peer has changed.
pub proof fn law_offer_is_answered<C, D, F>(
    peer: PeerView<C, D, F>,
    connection: Arc<C>,
    offer: SessionDescription,
    answer: SessionDescription,
)
    requires
        peer.connection == Some(connection),
        offer.sdp_type is Offer,
    ensures
        peer.signal(SignalMessage::Offer(offer)).runs(
            dones::<C, D>(1 + peer.pending_candidates.len()) + (seq![
                Reply::Description(answer),
                Reply::Done,
            ] + (dones::<C, D>(count(peer.on_signal)) + dones(count(peer.on_negotiated)))),
            seq![
                Action::<C, D, F>::SetRemoteDescription { connection, description: offer },
            ] + additions(connection, peer.pending_candidates) + (seq![
                Action::CreateAnswer { connection, answer_config: peer.answer_config },
                Action::SetLocalDescription { connection, description: answer },
            ] + (told::<C, D, F>(peer.on_signal, Event::Signal(SignalMessage::Answer(answer)))
                + told(peer.on_negotiated, Event::Negotiated))),
            peer.drained(),
        ),
{
    lemma_answer(peer.drained(), connection, answer);
    lemma_apply(
        peer,
        connection,
        offer,
        seq![Reply::Description(answer), Reply::Done] + (dones::<C, D>(count(peer.on_signal))
            + dones(count(peer.on_negotiated))),
        seq![
            Action::CreateAnswer { connection, answer_config: peer.answer_config },
            Action::SetLocalDescription { connection, description: answer },
        ] + (told::<C, D, F>(peer.on_signal, Event::Signal(SignalMessage::Answer(answer)))
            + told(peer.on_negotiated, Event::Negotiated)),
    );
}

/// A description that is no offer and is handled well is applied, the candidates that were waiting
/// for it are added in the order in which they came, each once, and the peer tells that it has
/// negotiated. No candidate waits afterwards, and nothing else of the peer has changed.
pub proof fn law_answer_is_applied<C, D, F>(
    peer: PeerView<C, D, F>,
    connection: Arc<C>,
    description: SessionDescription,
)
    requires
        peer.connection == Some(connection),
        !(description.sdp_type is Offer),
    ensures
        peer.signal(SignalMessage::Answer(description)).runs(
            dones::<C, D>(1 + peer.pending_candidates.len()) + dones(count(peer.on_negotiated)),
            seq![Action::<C, D, F>::SetRemoteDescription { connection, description }] + additions(
                connection,
                peer.pending_candidates,
            ) + told(peer.on_negotiated, Event::Negotiated),
            peer.drained(),
        ),
{
    law_notify(peer.drained(), Event::Negotiated);
    lemma_apply(
        peer,
        connection,
        description,
        dones(count(peer.on_negotiated)),
        told(peer.on_negotiated, Event::Negotiated),
    );
}

/// The session description that a message carries.
pub open spec fn carried(message: SignalMessage) -> Option<SessionDescription> {
    match message {
        SignalMessage::Answer(description)
        | SignalMessage::Offer(description)
        | SignalMessage::Pranswer(description)
        | SignalMessage::Rollback(description) => Some(description),
        _ => None,
    }
}

/// Whether two purposes differ at most in which message carries a description.
pub open spec fn alike_purposes(one: Purpose, other: Purpose) -> bool {
    one == other || match (one, other) {
        (Purpose::Signal(message), Purpose::Signal(message2)) => carried(message) is Some
            && carried(message) == carried(message2),
        _ => false,
    }
}

/// Whether two moments differ at most in which message carries a description.
pub open spec fn alike<C, D, F>(one: Moment<C, D, F>, other: Moment<C, D, F>) -> bool {
    &&& one.peer == other.peer
    &&& one.action == other.action
    &&& one.queue == other.queue
    &&& one.stage == other.stage || match (one.stage, other.stage) {
        (Stage::Opening(purpose), Stage::Opening(purpose2)) => alike_purposes(purpose, purpose2),
        (Stage::Observing(c, purpose), Stage::Observing(c2, purpose2)) => c == c2
            && alike_purposes(purpose, purpose2),
        (Stage::Listening(purpose), Stage::Listening(purpose2)) => alike_purposes(
            purpose,
            purpose2,
        ),
        (Stage::CreatingChannel(purpose), Stage::CreatingChannel(purpose2)) => alike_purposes(
            purpose,
            purpose2,
        ),
        (
            Stage::ObservingChannel(d, Some(purpose)),
            Stage::ObservingChannel(d2, Some(purpose2)),
        ) => d == d2 && alike_purposes(purpose, purpose2),
        _ => false,
    }
}

/// Moments that are alike have runs that are alike.
proof fn lemma_alike<C, D, F>(
    one: Moment<C, D, F>,
    other: Moment<C, D, F>,
    replies: Seq<Reply<C, D>>,
)
    requires
        alike(one, other),
    ensures
        one.admits(replies) == other.admits(replies),
        one.admits(replies) ==> alike(one.after(replies), other.after(replies)),
        one.admits(replies) ==> one.actions(replies) == other.actions(replies),
    decreases replies.len(),
{
    if replies.len() > 0 && one.stage.awaits(replies[0]) {
        assert(alike(one.next(replies[0]), other.next(replies[0])));
        lemma_alike(one.next(replies[0]), other.next(replies[0]), replies.drop_first());
    }
}

/// What a description does depends on the description alone, not on which of the four messages it
/// comes in: the same replies are taken, the same actions are asked for, and the same result and
/// state come out, whether the peer has a connection or opens one first, and whether all goes well
/// or something fails.
pub proof fn law_descriptions_alike<C, D, F>(
    peer: PeerView<C, D, F>,
    one: SignalMessage,
    other: SignalMessage,
    replies: Seq<Reply<C, D>>,
)
    requires
        carried(one) is Some,
        carried(one) == carried(other),
    ensures
        peer.handle(one) == peer.handle(other),
        peer.signal(one).admits(replies) == peer.signal(other).admits(replies),
        peer.signal(one).admits(replies) ==> {
            &&& peer.signal(one).actions(replies) == peer.signal(other).actions(replies)
            &&& peer.signal(one).after(replies).action == peer.signal(other).after(replies).action
            &&& peer.signal(one).after(replies).peer == peer.signal(other).after(replies).peer
        },
{
    assert(peer.handle(one) == peer.handle(other));
    lemma_alike(peer.signal(one), peer.signal(other), replies);
}

/// The start of a session: a peer without a connection opens one, observes it, opens the data
/// channel under the name and with the settings that it was made with, and observes that. It is
/// the initiator then, and holds both.
pub proof fn law_init<C, D, F>(peer: PeerView<C, D, F>, connection: Arc<C>, channel: Arc<D>)
    requires
        peer.connection is None,
    ensures
        peer.init().runs(
            seq![Reply::Connection(connection), Reply::Done, Reply::Channel(channel), Reply::Done],
            seq![
                Action::NewConnection { connection_config: peer.connection_config },
                Action::Observe { connection },
                Action::CreateDataChannel {
                    connection,
                    name: peer.data_channel_name,
                    data_channel_config: peer.data_channel_config,
                },
                Action::ObserveChannel { channel },
            ],
            (PeerView {
                initiator: true,
                connection: Some(connection),
                data_channel: Some(channel),
                ..peer
            }),
        ),
{
    let replies = seq![
        Reply::Connection(connection),
        Reply::Done,
        Reply::Channel(channel),
        Reply::Done,
    ];
    lemma_four(peer.init(), replies);
    assert(peer.init().actions(replies) =~= seq![
        Action::NewConnection { connection_config: peer.connection_config },
        Action::Observe { connection },
        Action::CreateDataChannel {
            connection,
            name: peer.data_channel_name,
            data_channel_config: peer.data_channel_config,
        },
        Action::ObserveChannel { channel },
    ].push(Action::Finish { result: Ok(()) }));
}

/// A message that comes to a peer without a connection: the peer opens a connection and observes
/// it, and, as the initiator, opens a data channel, or else listens for one; then it handles the
/// message with that connection.
pub proof fn law_first_signal<C, D, F>(
    peer: PeerView<C, D, F>,
    message: SignalMessage,
    connection: Arc<C>,
    channel: Arc<D>,
)
    requires
        peer.connection is None,
    ensures
        !peer.initiator ==> ({
            let start = peer.signal(message);
            let replies = seq![Reply::Connection(connection), Reply::Done, Reply::Done];
            let handled = (PeerView { connection: Some(connection), ..peer }).handle(message);
            &&& start.admits(replies)
            &&& start.after(replies) == handled
            &&& start.actions(replies) == seq![
                Action::NewConnection { connection_config: peer.connection_config },
                Action::Observe { connection },
                Action::Listen { connection },
                handled.action,
            ]
        }),
        peer.initiator ==> ({
            let start = peer.signal(message);
            let replies = seq![
                Reply::Connection(connection),
                Reply::Done,
                Reply::Channel(channel),
                Reply::Done,
            ];
            let handled = (PeerView {
                connection: Some(connection),
                data_channel: Some(channel),
                ..peer
            }).handle(message);
            &&& start.admits(replies)
            &&& start.after(replies) == handled
            &&& start.actions(replies) == seq![
                Action::NewConnection { connection_config: peer.connection_config },
                Action::Observe { connection },
                Action::CreateDataChannel {
                    connection,
                    name: peer.data_channel_name,
                    data_channel_config: peer.data_channel_config,
                },
                Action::ObserveChannel { channel },
                handled.action,
            ]
        }),
{
    let start = peer.signal(message);
    if peer.initiator {
        let replies = seq![
            Reply::Connection(connection),
            Reply::Done,
            Reply::Channel(channel),
            Reply::Done,
        ];
        lemma_four(start, replies);
    } else {
        let replies = seq![Reply::<C, D>::Connection(connection), Reply::Done, Reply::Done];
        reveal_with_fuel(Moment::admits, 4);
        reveal_with_fuel(Moment::after, 4);
        reveal_with_fuel(Moment::actions, 4);
        let rest = replies.drop_first();
        assert(rest[0] == replies[1]);
        assert(rest.drop_first()[0] == replies[2]);
        assert(rest.drop_first().drop_first().len() == 0);
    }
}

/// A second start, or the set-up for a message, opens no second connection: it observes the one
/// that is there, also if that one appeared while a connection was being opened.
pub proof fn law_one_connection<C, D, F>(
    peer: PeerView<C, D, F>,
    purpose: Purpose,
    connection: Arc<C>,
    opened: Arc<C>,
    queue: Seq<IceCandidateInit>,
)
    requires
        peer.connection == Some(connection),
    ensures
        peer.create_peer(purpose) == peer.at(
            Action::Observe { connection },
            Stage::Observing(connection, purpose),
        ),
        peer.resume(Stage::Opening(purpose), queue, Reply::Connection(opened)) == peer.at(
            Action::Observe { connection },
            Stage::Observing(connection, purpose),
        ),
{
}

/// A candidate that comes while the connection has a remote description is added at once, and the
/// peer stays as it is. One that comes before waits, behind those that wait already.
pub proof fn law_candidate<C, D, F>(
    peer: PeerView<C, D, F>,
    connection: Arc<C>,
    candidate: IceCandidateInit,
)
    requires
        peer.connection == Some(connection),
    ensures
        peer.signal(SignalMessage::Candidate(candidate)).runs(
            seq![Reply::RemoteDescription(true), Reply::Done],
            seq![
                Action::QueryRemoteDescription { connection },
                Action::AddIceCandidate { connection, candidate },
            ],
            peer,
        ),
        peer.signal(SignalMessage::Candidate(candidate)).runs(
            seq![Reply::RemoteDescription(false)],
            seq![Action::QueryRemoteDescription { connection }],
            (PeerView { pending_candidates: peer.pending_candidates.push(candidate), ..peer }),
        ),
{
    let start = peer.signal(SignalMessage::Candidate(candidate));
    let waiting = PeerView {
        pending_candidates: peer.pending_candidates.push(candidate),
        ..peer
    };
    let adding = start.next(Reply::RemoteDescription(true));
    lemma_finished(peer);
    lemma_finished(waiting);
    lemma_prepend(adding, Reply::Done, seq![], seq![], peer);
    lemma_prepend(
        start,
        Reply::RemoteDescription(true),
        seq![Reply::Done] + seq![],
        seq![adding.action] + seq![],
        peer,
    );
    assert(seq![Reply::<C, D>::RemoteDescription(true)] + (seq![Reply::Done] + seq![]) =~= seq![
        Reply::RemoteDescription(true),
        Reply::Done,
    ]);
    assert(seq![start.action] + (seq![adding.action] + seq![]) =~= seq![
        start.action,
        adding.action,
    ]);
    lemma_prepend(start, Reply::RemoteDescription(false), seq![], seq![], waiting);
    assert(seq![Reply::<C, D>::RemoteDescription(false)] + seq![] =~= seq![
        Reply::RemoteDescription(false),
    ]);
    assert(seq![start.action] + seq![] =~= seq![start.action]);
}

/// The peer after candidates that came one after the other, before a remote description.
pub open spec fn after_candidates<C, D, F>(
    peer: PeerView<C, D, F>,
    candidates: Seq<IceCandidateInit>,
) -> PeerView<C, D, F>
    decreases candidates.len(),
{
    if candidates.len() == 0 {
        peer
    } else {
        after_candidates(peer, candidates.drop_last()).signal(
            SignalMessage::Candidate(candidates.last()),
        ).after(seq![Reply::RemoteDescription(false)]).peer
    }
}

/// The candidates that came before the remote description are added when it comes: those that were
/// waiting already and those that came since, all of them, each once, in the order in which they
/// came.
pub proof fn law_early_candidates<C, D, F>(
    peer: PeerView<C, D, F>,
    connection: Arc<C>,
    candidates: Seq<IceCandidateInit>,
    description: SessionDescription,
)
    requires
        peer.connection == Some(connection),
    ensures
        ({
            let start = after_candidates(peer, candidates).signal(
                SignalMessage::Answer(description),
            );
            let early = peer.pending_candidates + candidates;
            let replies = dones::<C, D>(1 + early.len());
            let handled = peer.drained().described(description.sdp_type);
            &&& start.admits(replies)
            &&& start.after(replies) == handled
            &&& start.actions(replies) == seq![
                Action::<C, D, F>::SetRemoteDescription { connection, description },
            ] + additions(connection, early) + seq![handled.action]
        }),
{
    lemma_after_candidates(peer, connection, candidates);
    let early = peer.pending_candidates + candidates;
    let later = after_candidates(peer, candidates);
    assert(later.drained() =~= peer.drained());
    let start = later.signal(SignalMessage::Answer(description));
    let kind = description.sdp_type;
    let replies = dones::<C, D>(1 + early.len());
    lemma_drain(peer.drained(), connection, kind, early);
    assert(start.next(Reply::Done) == peer.drained().drain(connection, kind, early));
    assert(replies.drop_first() =~= dones(early.len()));
    assert(seq![start.action] + additions(connection, early).push(
        peer.drained().described(kind).action,
    ) =~= seq![start.action] + additions(connection, early) + seq![
        peer.drained().described(kind).action,
    ]);
}

/// The replies with which a peer without a connection sets one up: `connection`, and for the
/// initiator the data channel `channel`.
pub open spec fn set_up_replies<C, D, F>(
    peer: PeerView<C, D, F>,
    connection: Arc<C>,
    channel: Arc<D>,
) -> Seq<Reply<C, D>> {
    if peer.initiator {
        seq![Reply::Connection(connection), Reply::Done, Reply::Channel(channel), Reply::Done]
    } else {
        seq![Reply::Connection(connection), Reply::Done, Reply::Done]
    }
}

/// The peer after that.
pub open spec fn set_up<C, D, F>(
    peer: PeerView<C, D, F>,
    connection: Arc<C>,
    channel: Arc<D>,
) -> PeerView<C, D, F> {
    if peer.initiator {
        PeerView { connection: Some(connection), data_channel: Some(channel), ..peer }
    } else {
        PeerView { connection: Some(connection), ..peer }
    }
}

/// The actions that those are the replies to.
pub open spec fn set_up_actions<C, D, F>(
    peer: PeerView<C, D, F>,
    connection: Arc<C>,
    channel: Arc<D>,
) -> Seq<Action<C, D, F>> {
    let opening = seq![
        Action::NewConnection { connection_config: peer.connection_config },
        Action::Observe { connection },
    ];
    if peer.initiator {
        opening + seq![
            Action::CreateDataChannel {
                connection,
                name: peer.data_channel_name,
                data_channel_config: peer.data_channel_config,
            },
            Action::ObserveChannel { channel },
        ]
    } else {
        opening + seq![Action::Listen { connection }]
    }
}

/// What a message does to a peer with a connection, it does to one without, after the set-up: what
/// is said of the handling of offers, other descriptions and candidates holds there too.
pub proof fn law_handled_after_set_up<C, D, F>(
    peer: PeerView<C, D, F>,
    message: SignalMessage,
    connection: Arc<C>,
    channel: Arc<D>,
    replies: Seq<Reply<C, D>>,
    actions: Seq<Action<C, D, F>>,
    end: PeerView<C, D, F>,
)
    requires
        peer.connection is None,
        set_up(peer, connection, channel).signal(message).runs(replies, actions, end),
    ensures
        peer.signal(message).runs(
            set_up_replies(peer, connection, channel) + replies,
            set_up_actions(peer, connection, channel) + actions,
            end,
        ),
{
    let start = peer.signal(message);
    let first = set_up_replies(peer, connection, channel);
    let before = set_up_actions(peer, connection, channel);
    law_first_signal(peer, message, connection, channel);
    assert(start.actions(first) =~= before.push(start.after(first).action));
    lemma_join(start, first, before, replies, actions, end);
}

/// The peer after candidates that came one after the other, before a remote description, to a peer
/// without a connection: the first opens `connection`.
pub open spec fn after_first_candidates<C, D, F>(
    peer: PeerView<C, D, F>,
    connection: Arc<C>,
    channel: Arc<D>,
    candidates: Seq<IceCandidateInit>,
) -> PeerView<C, D, F> {
    after_candidates(
        peer.signal(SignalMessage::Candidate(candidates.first())).after(
            set_up_replies(peer, connection, channel).push(Reply::RemoteDescription(false)),
        ).peer,
        candidates.drop_first(),
    )
}

/// The same of candidates of which the first finds no connection: it opens one and waits, and all
/// of them are added to that connection when the remote description comes.
pub proof fn law_first_candidates<C, D, F>(
    peer: PeerView<C, D, F>,
    connection: Arc<C>,
    channel: Arc<D>,
    candidates: Seq<IceCandidateInit>,
    description: SessionDescription,
)
    requires
        peer.connection is None,
        candidates.len() > 0,
    ensures
        peer.signal(SignalMessage::Candidate(candidates.first())).admits(
            set_up_replies(peer, connection, channel).push(Reply::RemoteDescription(false)),
        ),
        ({
            let start = after_first_candidates(peer, connection, channel, candidates).signal(
                SignalMessage::Answer(description),
            );
            let early = peer.pending_candidates + candidates;
            let replies = dones::<C, D>(1 + early.len());
            let handled = set_up(peer, connection, channel).drained().described(
                description.sdp_type,
            );
            &&& start.admits(replies)
            &&& start.after(replies) == handled
            &&& start.actions(replies) == seq![
                Action::<C, D, F>::SetRemoteDescription { connection, description },
            ] + additions(connection, early) + seq![handled.action]
        }),
{
    let message = SignalMessage::Candidate(candidates.first());
    let setting = set_up_replies(peer, connection, channel);
    let asked = seq![Reply::<C, D>::RemoteDescription(false)];
    let ready = set_up(peer, connection, channel);
    let start = peer.signal(message);
    let waiting = PeerView {
        pending_candidates: peer.pending_candidates.push(candidates.first()),
        ..ready
    };
    law_first_signal(peer, message, connection, channel);
    law_candidate(ready, connection, candidates.first());
    assert(ready.signal(message) == ready.handle(message));
    assert(setting.push(Reply::RemoteDescription(false)) =~= setting + asked);
    lemma_split(start, setting, asked);
    assert(start.after(setting + asked).peer == waiting);
    law_early_candidates(waiting, connection, candidates.drop_first(), description);
    assert(waiting.pending_candidates + candidates.drop_first() =~= peer.pending_candidates
        + candidates);
    assert(waiting.drained() =~= ready.drained());
}

proof fn lemma_after_candidates<C, D, F>(
    peer: PeerView<C, D, F>,
    connection: Arc<C>,
    candidates: Seq<IceCandidateInit>,
)
    requires
        peer.connection == Some(connection),
    ensures
        after_candidates(peer, candidates) == (PeerView {
            pending_candidates: peer.pending_candidates + candidates,
            ..peer
        }),
    decreases candidates.len(),
{
    if candidates.len() == 0 {
        assert(peer.pending_candidates + candidates =~= peer.pending_candidates);
    } else {
        let before = after_candidates(peer, candidates.drop_last());
        lemma_after_candidates(peer, connection, candidates.drop_last());
        law_candidate(before, connection, candidates.last());
        assert((peer.pending_candidates + candidates.drop_last()).push(candidates.last())
            =~= peer.pending_candidates + candidates);
    }
}

/// A session comes about: the initiator sends its offer; the other peer, to which that message is
/// the first, opens a connection, applies the offer and sends its answer; the initiator applies the
/// answer. Both have told then that they have negotiated.
pub proof fn law_handshake<C, D, F>(
    initiator: PeerView<C, D, F>,
    connection: Arc<C>,
    to_other: Arc<F>,
    other: PeerView<C, D, F>,
    opened: Arc<C>,
    to_initiator: Arc<F>,
    offer: SessionDescription,
    answer: SessionDescription,
)
    requires
        initiator.initiator,
        initiator.connection == Some(connection),
        initiator.on_signal == Some(to_other),
        !other.initiator,
        other.connection is None,
        other.on_signal == Some(to_initiator),
        offer.sdp_type is Offer,
        answer.sdp_type is Answer,
    ensures
        initiator.negotiate().runs(
            seq![Reply::Description(offer), Reply::Done, Reply::Done],
            seq![
                Action::CreateOffer { connection, offer_config: initiator.offer_config },
                Action::SetLocalDescription { connection, description: offer },
                Action::Notify {
                    callback: to_other,
                    event: Event::Signal(SignalMessage::Offer(offer)),
                },
            ],
            initiator,
        ),
        other.signal(SignalMessage::Offer(offer)).runs(
            seq![Reply::<C, D>::Connection(opened), Reply::Done, Reply::Done] + (dones::<C, D>(
                1 + other.pending_candidates.len(),
            ) + (seq![Reply::Description(answer), Reply::Done] + (dones::<C, D>(1) + dones(
                count(other.on_negotiated),
            )))),
            seq![
                Action::<C, D, F>::NewConnection { connection_config: other.connection_config },
                Action::Observe { connection: opened },
                Action::Listen { connection: opened },
            ] + (seq![
                Action::<C, D, F>::SetRemoteDescription { connection: opened, description: offer },
            ] + additions(opened, other.pending_candidates) + (seq![
                Action::CreateAnswer { connection: opened, answer_config: other.answer_config },
                Action::SetLocalDescription { connection: opened, description: answer },
            ] + (seq![
                Action::<C, D, F>::Notify {
                    callback: to_initiator,
                    event: Event::Signal(SignalMessage::Answer(answer)),
                },
            ] + told(other.on_negotiated, Event::Negotiated)))),
            (PeerView { connection: Some(opened), ..other }).drained(),
        ),
        initiator.signal(SignalMessage::Answer(answer)).runs(
            dones::<C, D>(1 + initiator.pending_candidates.len()) + dones(
                count(initiator.on_negotiated),
            ),
            seq![
                Action::<C, D, F>::SetRemoteDescription { connection, description: answer },
            ] + additions(connection, initiator.pending_candidates) + told(
                initiator.on_negotiated,
                Event::Negotiated,
            ),
            initiator.drained(),
        ),
{
    let sending = Action::<C, D, F>::Notify {
        callback: to_other,
        event: Event::Signal(SignalMessage::Offer(offer)),
    };
    law_negotiation(initiator, connection, offer);
    assert(seq![Reply::<C, D>::Description(offer), Reply::Done] + dones(1) =~= seq![
        Reply::Description(offer),
        Reply::Done,
        Reply::Done,
    ]);
    assert(seq![
        Action::<C, D, F>::CreateOffer { connection, offer_config: initiator.offer_config },
        Action::SetLocalDescription { connection, description: offer },
    ] + seq![sending] =~= seq![
        Action::CreateOffer { connection, offer_config: initiator.offer_config },
        Action::SetLocalDescription { connection, description: offer },
        sending,
    ]);

    let connected = PeerView { connection: Some(opened), ..other };
    let start = other.signal(SignalMessage::Offer(offer));
    let first = seq![Reply::<C, D>::Connection(opened), Reply::Done, Reply::Done];
    let before = seq![
        Action::<C, D, F>::NewConnection { connection_config: other.connection_config },
        Action::Observe { connection: opened },
        Action::Listen { connection: opened },
    ];
    let replies = dones::<C, D>(1 + other.pending_candidates.len()) + (seq![
        Reply::Description(answer),
        Reply::Done,
    ] + (dones::<C, D>(1) + dones(count(other.on_negotiated))));
    let actions = seq![
        Action::<C, D, F>::SetRemoteDescription { connection: opened, description: offer },
    ] + additions(opened, other.pending_candidates) + (seq![
        Action::CreateAnswer { connection: opened, answer_config: other.answer_config },
        Action::SetLocalDescription { connection: opened, description: answer },
    ] + (seq![
        Action::<C, D, F>::Notify {
            callback: to_initiator,
            event: Event::Signal(SignalMessage::Answer(answer)),
        },
    ] + told(other.on_negotiated, Event::Negotiated)));
    law_first_signal(other, SignalMessage::Offer(offer), opened, arbitrary());
    law_offer_is_answered(connected, opened, offer, answer);
    assert(start.actions(first) =~= before.push(start.after(first).action));
    lemma_join(start, first, before, replies, actions, connected.drained());

    law_answer_is_applied(initiator, connection, answer);
}

/// The requests that a procedure makes while it adds the candidates of `queue`, where `peers` are
/// the states in which other calls have left the peer when the replies come.
pub open spec fn additions_among<C, D, F>(
    peers: Seq<PeerView<C, D, F>>,
    connection: Arc<C>,
    kind: SdpType,
    queue: Seq<IceCandidateInit>,
) -> Seq<Action<C, D, F>>
    decreases peers.len(),
{
    if peers.len() == 0 || queue.len() == 0 {
        seq![]
    } else {
        let now = peers[0].resume(Stage::Draining(connection, kind), queue, Reply::Done);
        seq![now.action] + additions_among(peers.drop_first(), connection, kind, now.queue)
    }
}

/// Other calls do not disturb the adding of candidates: whatever they do to the peer in between,
/// the candidates are added to the connection whose description was set, all of them, each once,
/// in order.
pub proof fn law_additions_undisturbed<C, D, F>(
    peers: Seq<PeerView<C, D, F>>,
    connection: Arc<C>,
    kind: SdpType,
    queue: Seq<IceCandidateInit>,
)
    requires
        peers.len() >= queue.len(),
    ensures
        additions_among(peers, connection, kind, queue) == additions::<C, D, F>(
            connection,
            queue,
        ),
    decreases queue.len(),
{
    let adding = additions::<C, D, F>(connection, queue);
    if queue.len() == 0 {
        assert(additions_among(peers, connection, kind, queue) =~= adding);
    } else {
        let rest = queue.drop_first();
        law_additions_undisturbed(peers.drop_first(), connection, kind, rest);
        assert(seq![adding[0]] + additions::<C, D, F>(connection, rest) =~= adding);
    }
}

/// The requests that close what a peer holds: the data channel first, then the connection.
pub open spec fn closings<C, D, F>(peer: PeerView<C, D, F>) -> Seq<Action<C, D, F>> {
    let channel = match peer.data_channel {
        Some(channel) => seq![Action::CloseChannel { channel }],
        None => seq![],
    };
    let connection = match peer.connection {
        Some(connection) => seq![Action::CloseConnection { connection }],
        None => seq![],
    };
    channel + connection
}

/// A close that goes well closes the data channel and the connection, if there are any, each once,
/// and then tells of it. The peer holds neither afterwards; all else is as before. The candidates
/// that were waiting still wait.
pub proof fn law_close<C, D, F>(peer: PeerView<C, D, F>)
    ensures
        peer.close(true).runs(
            dones::<C, D>(closings(peer).len()) + dones(count(peer.on_close)),
            closings(peer) + told(peer.on_close, Event::Close),
            peer.disconnected(),
        ),
{
    let told_close = dones::<C, D>(count(peer.on_close));
    let telling = told::<C, D, F>(peer.on_close, Event::Close);
    let unchannelled = PeerView { data_channel: None, ..peer };
    let closing = unchannelled.close_connection(true);
    assert(peer.disconnected().callback_for(Event::Close) == peer.on_close);
    law_notify(peer.disconnected(), Event::Close);
    let (replies, actions) = match peer.connection {
        Some(connection) => {
            let request = Action::<C, D, F>::CloseConnection { connection };
            lemma_prepend(closing, Reply::Done, told_close, telling, peer.disconnected());
            (seq![Reply::Done] + told_close, seq![request] + telling)
        },
        None => {
            assert(unchannelled =~= peer.disconnected());
            (told_close, telling)
        },
    };
    assert(closing.runs(replies, actions, peer.disconnected()));
    let start = peer.close(true);
    match peer.data_channel {
        Some(channel) => {
            assert(start.next(Reply::Done) == closing);
            lemma_prepend(start, Reply::Done, replies, actions, peer.disconnected());
            assert(seq![Reply::<C, D>::Done] + replies =~= dones::<C, D>(closings(peer).len())
                + told_close);
            assert(seq![start.action] + actions =~= closings(peer) + telling);
        },
        None => {
            assert(unchannelled =~= peer);
            assert(replies =~= dones::<C, D>(closings(peer).len()) + told_close);
            assert(actions =~= closings(peer) + telling);
        },
    }
}

/// A closed peer that is closed again closes nothing and only tells of it.
pub proof fn law_close_again<C, D, F>(peer: PeerView<C, D, F>)
    ensures
        peer.disconnected().close(true).runs(
            dones(count(peer.on_close)),
            told(peer.on_close, Event::Close),
            peer.disconnected(),
        ),
{
    assert(peer.disconnected().callback_for(Event::Close) == peer.on_close);
    law_notify(peer.disconnected(), Event::Close);
}

/// Where the data channel cannot be closed, the connection is kept and nobody is told. Where the
/// connection cannot be closed, nobody is told either. What could not be closed is given up in
/// both cases.
pub proof fn law_close_fails<C, D, F>(
    peer: PeerView<C, D, F>,
    error: webrtc::Error,
)
    ensures
        peer.data_channel is Some ==> peer.close(true).next(Reply::Failed(error)) == (PeerView {
            data_channel: None,
            ..peer
        }).finish(Err(PeerError::Transport(error))),
        peer.data_channel is None && peer.connection is Some ==> peer.close(true).next(
            Reply::Failed(error),
        ) == peer.disconnected().finish(Err(PeerError::Transport(error))),
        peer.data_channel is Some && peer.connection is Some ==> peer.close(true).next(
            Reply::Done,
        ).next(Reply::Failed(error)) == peer.disconnected().finish(
            Err(PeerError::Transport(error)),
        ),
{
    if peer.data_channel is None {
        assert(peer.disconnected() =~= PeerView { connection: None, ..peer });
    }
}

/// A call leads to a moment whose stage says what the action is.
pub proof fn law_start_consistent<C, D, F>(peer: PeerView<C, D, F>, call: Call<D>)
    ensures
        peer.start(call).consistent(),
{
}

/// So does a reply, whatever state the peer is in by then.
pub proof fn law_step_consistent<C, D, F>(
    before: Moment<C, D, F>,
    peer: PeerView<C, D, F>,
    reply: Reply<C, D>,
)
    requires
        before.consistent(),
        before.stage.awaits(reply),
    ensures
        peer.resume(before.stage, before.queue, reply).consistent(),
{
}

/// The replies that an action can have.
pub open spec fn answers<C, D, F>(action: Action<C, D, F>, reply: Reply<C, D>) -> bool {
    match action {
        Action::NewConnection { .. } => reply is Connection,
        Action::Observe { .. } | Action::Listen { .. } | Action::ObserveChannel { .. }
        | Action::Notify { .. } => reply is Done,
        Action::CreateDataChannel { .. } => reply is Channel || reply is Failed,
        Action::QueryRemoteDescription { .. } => reply is RemoteDescription,
        Action::AddIceCandidate { .. } | Action::SetRemoteDescription { .. }
        | Action::SetLocalDescription { .. } | Action::CloseChannel { .. }
        | Action::CloseConnection { .. } => reply is Done || reply is Failed,
        Action::CreateOffer { .. } | Action::CreateAnswer { .. } => reply is Description
            || reply is Failed,
        Action::Finish { .. } => false,
    }
}

/// A caller that looks at the action alone knows which replies are taken. In particular a
/// procedure takes none when, and only when, it has finished.
pub proof fn law_action_decides_replies<C, D, F>(now: Moment<C, D, F>, reply: Reply<C, D>)
    requires
        now.consistent(),
    ensures
        now.stage.awaits(reply) == answers(now.action, reply),
{
}

/// No step changes the name, the role, the settings or the callbacks of a peer. Of the calls only
/// `init` changes any of them: it makes the peer the initiator.
pub proof fn law_settings_kept<C, D, F>(
    peer: PeerView<C, D, F>,
    call: Call<D>,
    stage: Stage<C, D>,
    queue: Seq<IceCandidateInit>,
    reply: Reply<C, D>,
)
    ensures
        peer.resume(stage, queue, reply).peer.set_up_like(peer),
        !(call is Init) ==> peer.start(call).peer.set_up_like(peer),
        peer.init().peer.set_up_like(PeerView { initiator: true, ..peer }),
{
}

/// The initiator alone makes offers and opens data channels; the other peer alone listens for data
/// channels and asks for negotiations.
pub open spec fn keeps_roles<C, D, F>(now: Moment<C, D, F>) -> bool {
    &&& now.action is CreateOffer ==> now.peer.initiator
    &&& now.action is CreateDataChannel ==> now.peer.initiator
    &&& now.action is Listen ==> !now.peer.initiator
    &&& (now.action matches Action::Notify { event, .. } && event == Event::Signal(
        SignalMessage::Renegotiate,
    )) ==> !now.peer.initiator
}

/// Each peer keeps to its role, in every step of every procedure.
pub proof fn law_roles<C, D, F>(
    peer: PeerView<C, D, F>,
    call: Call<D>,
    stage: Stage<C, D>,
    queue: Seq<IceCandidateInit>,
    reply: Reply<C, D>,
)
    requires
        stage.awaits(reply),
    ensures
        keeps_roles(peer.start(call)),
        keeps_roles(peer.resume(stage, queue, reply)),
{
}

/// A callback is only told of what it was registered for: where a callback is to be called, it is
/// the one that is registered for the event at that moment.
pub proof fn law_callbacks<C, D, F>(
    peer: PeerView<C, D, F>,
    call: Call<D>,
    stage: Stage<C, D>,
    queue: Seq<IceCandidateInit>,
    reply: Reply<C, D>,
)
    requires
        stage.awaits(reply),
    ensures
        peer.start(call).action matches Action::Notify { callback, event } ==> Some(callback)
            == peer.callback_for(event),
        peer.resume(stage, queue, reply).action matches Action::Notify { callback, event }
            ==> Some(callback) == peer.callback_for(event),
{
}

/// An action that fails ends the procedure with its error, whatever the procedure is: no callback
/// is told, and the peer is as it was when the action failed.
pub proof fn law_failure<C, D, F>(
    peer: PeerView<C, D, F>,
    stage: Stage<C, D>,
    queue: Seq<IceCandidateInit>,
    error: webrtc::Error,
)
    requires
        stage.awaits(Reply::Failed(error)),
    ensures
        peer.resume(stage, queue, Reply::Failed(error)) == peer.finish(
            Err(PeerError::Transport(error)),
        ),
{
}

/// A description is refused as one for a closed connection exactly where there is no connection,
/// and the peer stays as it is. Since a message that finds no connection opens one first, it is
/// never refused at once.
pub proof fn law_closed_connection<C, D, F>(
    peer: PeerView<C, D, F>,
    message: SignalMessage,
    description: SessionDescription,
)
    ensures
        peer.connection is None ==> peer.handle_session_description(description) == peer.finish(
            Err(PeerError::ConnectionClosed),
        ),
        peer.connection is Some ==> peer.handle_session_description(description).action
            is SetRemoteDescription,
        peer.connection is None ==> peer.signal(message).action is NewConnection,
        !(peer.signal(message).action matches Action::Finish { result: Err(_) }),
{
}

/// The candidates that a message brings.
pub open spec fn brought(message: SignalMessage) -> Seq<IceCandidateInit> {
    match message {
        SignalMessage::Candidate(candidate) => seq![candidate],
        _ => seq![],
    }
}

impl<C, D> Stage<C, D> {
    /// The candidate that this stage has in hand.
    pub open spec fn in_hand(self) -> Seq<IceCandidateInit> {
        match self {
            Stage::Opening(Purpose::Signal(message)) => brought(message),
            Stage::Observing(_, Purpose::Signal(message)) => brought(message),
            Stage::Listening(Purpose::Signal(message)) => brought(message),
            Stage::CreatingChannel(Purpose::Signal(message)) => brought(message),
            Stage::ObservingChannel(_, Some(Purpose::Signal(message))) => brought(message),
            Stage::Querying(_, candidate) => seq![candidate],
            _ => seq![],
        }
    }
}

/// The candidate that an action hands to the transport.
pub open spec fn handed_over<C, D, F>(action: Action<C, D, F>) -> Seq<IceCandidateInit> {
    match action {
        Action::AddIceCandidate { candidate, .. } => seq![candidate],
        _ => seq![],
    }
}

/// All candidates that a peer and a procedure of it hold: those that are being added, those that
/// wait, and the one in hand.
pub open spec fn held<C, D, F>(
    peer: PeerView<C, D, F>,
    stage: Stage<C, D>,
    queue: Seq<IceCandidateInit>,
) -> Multiset<IceCandidateInit> {
    (queue + peer.pending_candidates + stage.in_hand()).to_multiset()
}

/// The candidates that a call brings.
pub open spec fn brought_by<D>(call: Call<D>) -> Seq<IceCandidateInit> {
    match call {
        Call::Signal(message) => brought(message),
        _ => seq![],
    }
}

/// A call adds to what is held exactly the candidate that its message brings, if it is a message
/// with one.
pub proof fn law_candidates_taken_in<C, D, F>(peer: PeerView<C, D, F>, call: Call<D>)
    ensures
        ({
            let now = peer.start(call);
            held(now.peer, now.stage, now.queue).add(handed_over(now.action).to_multiset())
                == peer.pending_candidates.to_multiset().add(brought_by(call).to_multiset())
        }),
{
    let now = peer.start(call);
    let pending = peer.pending_candidates;
    assert(now.queue + now.peer.pending_candidates + now.stage.in_hand() =~= pending + brought_by(
        call,
    ));
    assert(handed_over(now.action) =~= seq![]);
    vstd::seq_lib::lemma_multiset_commutative(pending, brought_by(call));
    vstd::seq_lib::lemma_multiset_commutative(pending + brought_by(call), handed_over(now.action));
    assert(pending + brought_by(call) + handed_over(now.action) =~= pending + brought_by(call));
}

/// No step that goes well loses, makes up or doubles a candidate: what the peer and the procedure
/// held before, they hold afterwards, but for the one that is handed to the transport.
pub proof fn law_candidates_conserved<C, D, F>(
    peer: PeerView<C, D, F>,
    stage: Stage<C, D>,
    queue: Seq<IceCandidateInit>,
    reply: Reply<C, D>,
)
    requires
        stage.awaits(reply),
        !(reply is Failed),
        stage is Draining || queue.len() == 0,
    ensures
        ({
            let now = peer.resume(stage, queue, reply);
            held(peer, stage, queue) == held(now.peer, now.stage, now.queue).add(
                handed_over(now.action).to_multiset(),
            )
        }),
{
    let now = peer.resume(stage, queue, reply);
    let before = queue + peer.pending_candidates + stage.in_hand();
    let after = now.queue + now.peer.pending_candidates + now.stage.in_hand();
    let handed = handed_over(now.action);
    if stage is SettingRemote || stage is Draining {
        assert(before =~= handed + after);
        vstd::seq_lib::lemma_multiset_commutative(handed, after);
    } else {
        assert(before =~= after + handed);
        vstd::seq_lib::lemma_multiset_commutative(after, handed);
    }
}

impl<C, D> Stage<C, D> {
    /// How far a procedure at this stage is from its end. The stage does not change while queued
    /// candidates are being added.
    pub open spec fn distance(self) -> nat {
        match self {
            Stage::Opening(_) => 14,
            Stage::Observing(..) => 13,
            Stage::CreatingChannel(_) => 12,
            Stage::Listening(_) => 11,
            Stage::ObservingChannel(..) => 11,
            Stage::SettingRemote(..) => 10,
            Stage::Draining(..) => 9,
            Stage::CreatingOffer(_) => 4,
            Stage::SettingOffer(_) => 3,
            Stage::CreatingAnswer(_) => 5,
            Stage::SettingAnswer(_) => 4,
            Stage::Querying(..) => 3,
            Stage::Adding => 1,
            Stage::Notifying(Sequel::Negotiated) => 2,
            Stage::Notifying(Sequel::Finish) => 1,
            Stage::ClosingChannel(_) => 3,
            Stage::ClosingConnection(_) => 2,
            Stage::Finished => 0,
        }
    }
}

/// Every reply brings a procedure nearer to its end, whatever other calls have done to the peer:
/// it gets to a later stage, or, while queued candidates are being added, the queue gets shorter.
pub proof fn law_progress<C, D, F>(
    peer: PeerView<C, D, F>,
    stage: Stage<C, D>,
    queue: Seq<IceCandidateInit>,
    reply: Reply<C, D>,
)
    requires
        stage.awaits(reply),
    ensures
        ({
            let now = peer.resume(stage, queue, reply);
            ||| now.stage.distance() < stage.distance()
            ||| now.stage.distance() == stage.distance() && now.queue.len() < queue.len()
        }),
{
}

/// Whether `moments` is the course of a procedure: `replies` are the replies to its actions, and
/// `peers` are the states in which other calls have left the peer when they come. Once it has
/// finished, nothing more is said of it.
pub open spec fn is_course<C, D, F>(
    moments: spec_fn(nat) -> Moment<C, D, F>,
    peers: spec_fn(nat) -> PeerView<C, D, F>,
    replies: spec_fn(nat) -> Reply<C, D>,
) -> bool {
    forall|n: nat|
        #![trigger moments(n)]
        !(moments(n).stage is Finished) ==> {
            &&& moments(n).stage.awaits(replies(n))
            &&& moments((n + 1) as nat) == peers(n).resume(
                moments(n).stage,
                moments(n).queue,
                replies(n),
            )
        }
}

/// Every procedure ends, however other procedures overlap with it and whatever the replies are: it
/// takes finitely many replies.
pub proof fn law_every_procedure_ends<C, D, F>(
    moments: spec_fn(nat) -> Moment<C, D, F>,
    peers: spec_fn(nat) -> PeerView<C, D, F>,
    replies: spec_fn(nat) -> Reply<C, D>,
)
    requires
        is_course(moments, peers, replies),
    ensures
        exists|n: nat| (#[trigger] moments(n)).stage is Finished,
{
    lemma_ends_after(moments, peers, replies, 0);
}

proof fn lemma_ends_after<C, D, F>(
    moments: spec_fn(nat) -> Moment<C, D, F>,
    peers: spec_fn(nat) -> PeerView<C, D, F>,
    replies: spec_fn(nat) -> Reply<C, D>,
    n: nat,
)
    requires
        is_course(moments, peers, replies),
    ensures
        exists|end: nat| (#[trigger] moments(end)).stage is Finished,
    decreases moments(n).stage.distance(), moments(n).queue.len(),
{
    if !(moments(n).stage is Finished) {
        law_progress(peers(n), moments(n).stage, moments(n).queue, replies(n));
        lemma_ends_after(moments, peers, replies, (n + 1) as nat);
    }
}

/// How many replies a procedure takes at most, if no other call comes in between.
pub open spec fn remaining<C, D, F>(now: Moment<C, D, F>) -> nat {
    now.stage.distance() + now.queue.len() + now.peer.pending_candidates.len()
}

/// A procedure without other calls in between takes at most as many replies as its stage, the
/// queued and the waiting candidates allow.
pub proof fn law_length<C, D, F>(now: Moment<C, D, F>, replies: Seq<Reply<C, D>>)
    requires
        now.consistent(),
        now.admits(replies),
    ensures
        replies.len() <= remaining(now),
    decreases replies.len(),
{
    if replies.len() > 0 {
        law_step_consistent(now, now.peer, replies[0]);
        law_length(now.next(replies[0]), replies.drop_first());
    }
}

/// Every candidate that is gathered goes to the other peer, whatever the role and the state of the
/// peer that gathered it: the signal callback, if there is one, gets it once and as it is, nothing
/// else happens, and the peer stays as it is. An error ends the procedure with it and is told to
/// nobody.
pub proof fn law_candidate_is_sent<C, D, F>(
    peer: PeerView<C, D, F>,
    candidate: IceCandidateInit,
    error: webrtc::Error,
)
    ensures
        peer.candidate_gathered(Ok(candidate)).runs(
            dones(count(peer.on_signal)),
            told(peer.on_signal, Event::Signal(SignalMessage::Candidate(candidate))),
            peer,
        ),
        peer.start(Call::CandidateGathered(Ok(candidate))).runs(
            dones(count(peer.on_signal)),
            told(peer.on_signal, Event::Signal(SignalMessage::Candidate(candidate))),
            peer,
        ),
        peer.candidate_gathered(Err(error)) == (Moment {
            peer,
            action: Action::Finish { result: Err(PeerError::Transport(error)) },
            stage: Stage::Finished,
            queue: Seq::empty(),
        }),
{
    let message = SignalMessage::Candidate(candidate);
    let sent = dones::<C, D>(count(peer.on_signal));
    let telling = told::<C, D, F>(peer.on_signal, Event::Signal(message));
    lemma_finished(peer);
    lemma_signal_out(peer, message, Sequel::Finish, seq![], seq![]);
    assert(sent + seq![] =~= sent);
    assert(telling + seq![] =~= telling);
}

/// A request to negotiate again is a negotiation like one that the connection needs: the initiator
/// makes an offer with its own options, sets it and sends it, the other peer passes the request on.
pub proof fn law_renegotiation<C, D, F>(
    peer: PeerView<C, D, F>,
    connection: Arc<C>,
    offer: SessionDescription,
)
    requires
        peer.connection == Some(connection),
    ensures
        peer.initiator ==> peer.signal(SignalMessage::Renegotiate).runs(
            seq![Reply::Description(offer), Reply::Done] + dones(count(peer.on_signal)),
            seq![
                Action::CreateOffer { connection, offer_config: peer.offer_config },
                Action::SetLocalDescription { connection, description: offer },
            ] + told(peer.on_signal, Event::Signal(SignalMessage::Offer(offer))),
            peer,
        ),
        !peer.initiator ==> peer.signal(SignalMessage::Renegotiate).runs(
            dones(count(peer.on_signal)),
            told(peer.on_signal, Event::Signal(SignalMessage::Renegotiate)),
            peer,
        ),
        peer.signal(SignalMessage::Renegotiate) == peer.start(Call::NegotiationNeeded),
{
    law_negotiation(peer, connection, offer);
}

/// A data channel that the other side opens is observed and kept, whatever the role, the callbacks
/// and the state of the peer; one that it held before is replaced.
pub proof fn law_channel_is_accepted<C, D, F>(peer: PeerView<C, D, F>, channel: Arc<D>)
    ensures
        peer.on_data_channel(channel).runs(
            seq![Reply::Done],
            seq![Action::ObserveChannel { channel }],
            (PeerView { data_channel: Some(channel), ..peer }),
        ),
        peer.start(Call::DataChannel(channel)).runs(
            seq![Reply::Done],
            seq![Action::ObserveChannel { channel }],
            (PeerView { data_channel: Some(channel), ..peer }),
        ),
{
    let start = peer.on_data_channel(channel);
    let end = PeerView { data_channel: Some(channel), ..peer };
    lemma_finished(end);
    lemma_prepend(start, Reply::Done, seq![], seq![], end);
    assert(seq![Reply::<C, D>::Done] + seq![] =~= seq![Reply::Done]);
    assert(seq![start.action] + seq![] =~= seq![start.action]);
}

/// The start of a session by a peer that has a connection, whatever its role was: the connection is
/// observed again and kept, and a data channel is opened on it under the name and with the settings
/// of the peer, observed and kept. The peer is the initiator then.
pub proof fn law_init_connected<C, D, F>(
    peer: PeerView<C, D, F>,
    connection: Arc<C>,
    channel: Arc<D>,
)
    requires
        peer.connection == Some(connection),
    ensures
        peer.init().runs(
            seq![Reply::Done, Reply::Channel(channel), Reply::Done],
            seq![
                Action::Observe { connection },
                Action::CreateDataChannel {
                    connection,
                    name: peer.data_channel_name,
                    data_channel_config: peer.data_channel_config,
                },
                Action::ObserveChannel { channel },
            ],
            (PeerView { initiator: true, data_channel: Some(channel), ..peer }),
        ),
{
    let end = PeerView { initiator: true, data_channel: Some(channel), ..peer };
    let start = peer.init();
    let creating = start.next(Reply::Done);
    let observing = creating.next(Reply::Channel(channel));
    lemma_finished(end);
    lemma_prepend(observing, Reply::Done, seq![], seq![], end);
    lemma_prepend(
        creating,
        Reply::Channel(channel),
        seq![Reply::Done] + seq![],
        seq![observing.action] + seq![],
        end,
    );
    lemma_prepend(
        start,
        Reply::Done,
        seq![Reply::Channel(channel)] + (seq![Reply::Done] + seq![]),
        seq![creating.action] + (seq![observing.action] + seq![]),
        end,
    );
    assert(seq![Reply::<C, D>::Done] + (seq![Reply::Channel(channel)] + (seq![Reply::Done] + seq![]))
        =~= seq![Reply::Done, Reply::Channel(channel), Reply::Done]);
    assert(seq![start.action] + (seq![creating.action] + (seq![observing.action] + seq![]))
        =~= seq![start.action, creating.action, observing.action]);
}

/// Each setting of a new peer is the option of the same name, and depends on no other option; a new
/// peer has no role, no connection, no data channel, no candidates and no callbacks yet.
pub proof fn law_options<C, D, F>(peer: PeerView<C, D, F>, options: PeerOptions)
    requires
        peer.made_with(options),
    ensures
        options.connection_config is Some ==> *peer.connection_config
            == options.connection_config->0,
        options.connection_config is None ==> call_ensures(
            RTCConfiguration::default,
            (),
            *peer.connection_config,
        ),
        peer.offer_config == options.offer_config,
        peer.answer_config == options.answer_config,
        peer.data_channel_config is Some <==> options.data_channel_config is Some,
        options.data_channel_config is Some ==> *peer.data_channel_config->0
            == options.data_channel_config->0,
        !peer.initiator,
        peer.connection is None,
        peer.data_channel is None,
        peer.pending_candidates.len() == 0,
        peer.on_signal is None && peer.on_data is None && peer.on_connect is None,
        peer.on_close is None && peer.on_negotiated is None,
{
}

/// Where a call or a step uses a setting, it is that of the peer: a connection is opened with its
/// configuration, a data channel under its name and with its settings, and offers and answers are
/// made with its options for them and on the connection that it holds.
pub proof fn law_settings_used<C, D, F>(peer: PeerView<C, D, F>, change: Change<C, D, F>)
    requires
        change matches Change::Resume(stage, _, reply) ==> stage.awaits(reply),
    ensures
        peer.respond(change) matches Some(moment) ==> match moment.action {
            Action::NewConnection { connection_config } => connection_config
                == peer.connection_config && peer.connection is None,
            Action::CreateDataChannel { name, data_channel_config, .. } => name
                == peer.data_channel_name && data_channel_config == peer.data_channel_config,
            Action::CreateOffer { connection, offer_config } => offer_config == peer.offer_config
                && peer.connection == Some(connection),
            Action::CreateAnswer { connection, answer_config } => answer_config
                == peer.answer_config && peer.connection == Some(connection),
            _ => true,
        },
{
}

/// A connection that is closed, has failed or is disconnected closes the peer; in any other state
/// nothing happens.
pub proof fn law_state_change<C, D, F>(peer: PeerView<C, D, F>, state: ConnectionState)
    ensures
        (state is Closed || state is Failed || state is Disconnected) ==> peer.start(
            Call::StateChange(state),
        ).runs(
            dones::<C, D>(closings(peer).len()) + dones(count(peer.on_close)),
            closings(peer) + told(peer.on_close, Event::Close),
            peer.disconnected(),
        ),
        (state is Unspecified || state is New || state is Connecting || state is Connected)
            ==> peer.start(Call::StateChange(state)) == (Moment {
            peer,
            action: Action::Finish { result: Ok(()) },
            stage: Stage::Finished,
            queue: Seq::empty(),
        }),
{
    law_close(peer);
}

/// The two sizes among the options have no effect: a peer is made with options that differ only in
/// them in the same way.
pub proof fn law_sizes_unused<C, D, F>(
    peer: PeerView<C, D, F>,
    one: PeerOptions,
    other: PeerOptions,
)
    requires
        one.id == other.id,
        one.data_channel_name == other.data_channel_name,
        one.connection_config == other.connection_config,
        one.offer_config == other.offer_config,
        one.answer_config == other.answer_config,
        one.data_channel_config == other.data_channel_config,
    ensures
        peer.made_with(one) == peer.made_with(other),
{
}

/// The events of a data channel: its opening comes to the connect callback, a message with its
/// bytes to the data callback, each once and to no other callback; of an error no callback is
/// told, and it is the result of the procedure. The peer stays as it is.
pub proof fn law_channel_events<C, D, F>(
    peer: PeerView<C, D, F>,
    data: Vec<u8>,
    error: webrtc::Error,
)
    ensures
        peer.start(Call::DataChannelOpen).runs(
            dones(count(peer.on_connect)),
            told(peer.on_connect, Event::Connect),
            peer,
        ),
        peer.start(Call::DataChannelMessage(data)).runs(
            dones(count(peer.on_data)),
            told(peer.on_data, Event::Data(data)),
            peer,
        ),
        peer.start(Call::DataChannelError(error)) == peer.finish(
            Err(PeerError::Transport(error)),
        ),
{
    law_notify(peer, Event::Connect);
    law_notify(peer, Event::Data(data));
}

/// What a callback can be registered for.
pub enum Slot {
    Signal,
    Data,
    Connect,
    Close,
    Negotiated,
}

impl Event {
    /// What a callback is registered for that is told of this event.
    pub open spec fn slot(self) -> Slot {
        match self {
            Event::Signal(_) => Slot::Signal,
            Event::Data(_) => Slot::Data,
            Event::Connect => Slot::Connect,
            Event::Close => Slot::Close,
            Event::Negotiated => Slot::Negotiated,
        }
    }
}

/// Anything that can happen to a peer: a call that starts a procedure, the reply to an action of a
/// procedure, or the registration of a callback.
pub enum Change<C, D, F> {
    Start(Call<D>),
    Resume(Stage<C, D>, Seq<IceCandidateInit>, Reply<C, D>),
    Register(Slot, Arc<F>),
}

impl<C, D, F> PeerView<C, D, F> {
    /// The callback that is registered for `slot`.
    pub open spec fn registered(self, slot: Slot) -> Option<Arc<F>> {
        match slot {
            Slot::Signal => self.on_signal,
            Slot::Data => self.on_data,
            Slot::Connect => self.on_connect,
            Slot::Close => self.on_close,
            Slot::Negotiated => self.on_negotiated,
        }
    }

    /// The peer after a callback was registered.
    pub open spec fn register(self, slot: Slot, callback: Arc<F>) -> PeerView<C, D, F> {
        match slot {
            Slot::Signal => PeerView { on_signal: Some(callback), ..self },
            Slot::Data => PeerView { on_data: Some(callback), ..self },
            Slot::Connect => PeerView { on_connect: Some(callback), ..self },
            Slot::Close => PeerView { on_close: Some(callback), ..self },
            Slot::Negotiated => PeerView { on_negotiated: Some(callback), ..self },
        }
    }

    /// The moment that a change leads to. A registration asks for nothing.
    pub open spec fn respond(self, change: Change<C, D, F>) -> Option<Moment<C, D, F>> {
        match change {
            Change::Start(call) => Some(self.start(call)),
            Change::Resume(stage, queue, reply) => Some(self.resume(stage, queue, reply)),
            Change::Register(..) => None,
        }
    }

    /// The peer after a change.
    pub open spec fn changed(self, change: Change<C, D, F>) -> PeerView<C, D, F> {
        match change {
            Change::Start(call) => self.start(call).peer,
            Change::Resume(stage, queue, reply) => self.resume(stage, queue, reply).peer,
            Change::Register(slot, callback) => self.register(slot, callback),
        }
    }

    /// The peer after `changes`, one after the other. The procedures that they belong to may
    /// overlap in any way, and whoever shares the peer may have made them.
    pub open spec fn history(self, changes: Seq<Change<C, D, F>>) -> PeerView<C, D, F>
        decreases changes.len(),
    {
        if changes.len() == 0 {
            self
        } else {
            self.history(changes.drop_last()).changed(changes.last())
        }
    }
}

/// A registration replaces the callback for its slot and changes nothing else.
pub proof fn law_registration<C, D, F>(
    peer: PeerView<C, D, F>,
    slot: Slot,
    callback: Arc<F>,
    other: Slot,
)
    ensures
        peer.register(slot, callback).registered(slot) == Some(callback),
        other != slot ==> peer.register(slot, callback).registered(other) == peer.registered(
            other,
        ),
        peer.register(slot, callback) == (PeerView {
            on_signal: peer.register(slot, callback).on_signal,
            on_data: peer.register(slot, callback).on_data,
            on_connect: peer.register(slot, callback).on_connect,
            on_close: peer.register(slot, callback).on_close,
            on_negotiated: peer.register(slot, callback).on_negotiated,
            ..peer
        }),
        peer.respond(Change::Register(slot, callback)) is None,
{
}

/// The callback that was registered last is the one that is told: whatever has happened since, if
/// no other one was registered for the same, every event for it comes to that callback.
pub proof fn law_last_callback<C, D, F>(
    peer: PeerView<C, D, F>,
    slot: Slot,
    callback: Arc<F>,
    changes: Seq<Change<C, D, F>>,
    next: Change<C, D, F>,
)
    requires
        forall|i: int|
            0 <= i < changes.len() ==> !(#[trigger] changes[i] matches Change::Register(s, _) && s
                == slot),
        next matches Change::Resume(stage, _, reply) ==> stage.awaits(reply),
    ensures
        ({
            let now = peer.register(slot, callback).history(changes);
            &&& now.registered(slot) == Some(callback)
            &&& now.respond(next) matches Some(moment) ==> (moment.action matches Action::Notify {
                callback: told,
                event,
            } ==> event.slot() == slot ==> told == callback)
        }),
{
    let start = peer.register(slot, callback);
    lemma_callback_stays(start, slot, changes);
    let now = start.history(changes);
    match next {
        Change::Start(call) => {
            law_callbacks(now, call, Stage::Adding, seq![], Reply::Done);
        },
        Change::Resume(stage, queue, reply) => {
            law_callbacks(now, Call::Init, stage, queue, reply);
        },
        Change::Register(..) => {},
    }
}

proof fn lemma_callback_stays<C, D, F>(
    peer: PeerView<C, D, F>,
    slot: Slot,
    changes: Seq<Change<C, D, F>>,
)
    requires
        forall|i: int|
            0 <= i < changes.len() ==> !(#[trigger] changes[i] matches Change::Register(s, _) && s
                == slot),
    ensures
        peer.history(changes).registered(slot) == peer.registered(slot),
    decreases changes.len(),
{
    if changes.len() > 0 {
        let rest = changes.drop_last();
        assert forall|i: int| 0 <= i < rest.len() implies !(
        #[trigger] rest[i] matches Change::Register(s, _) && s == slot) by {
            assert(rest[i] == changes[i]);
        }
        lemma_callback_stays(peer, slot, rest);
        lemma_change_keeps_settings(peer.history(rest), changes.last());
        assert(changes.last() == changes[changes.len() - 1]);
    }
}

/// What a change does to the name, the settings and the callbacks of a peer.
proof fn lemma_change_keeps_settings<C, D, F>(
    peer: PeerView<C, D, F>,
    change: Change<C, D, F>,
)
    ensures
        peer.changed(change).id == peer.id,
        peer.changed(change).connection_config == peer.connection_config,
        peer.changed(change).offer_config == peer.offer_config,
        peer.changed(change).answer_config == peer.answer_config,
        peer.changed(change).data_channel_name == peer.data_channel_name,
        peer.changed(change).data_channel_config == peer.data_channel_config,
        peer.initiator ==> peer.changed(change).initiator,
        forall|slot: Slot|
            !(change matches Change::Register(s, _) && s == slot) ==> #[trigger] peer.changed(
                change,
            ).registered(slot) == peer.registered(slot),
{
    match change {
        Change::Start(call) => {
            law_settings_kept(peer, call, Stage::Adding, seq![], Reply::Done);
        },
        Change::Resume(stage, queue, reply) => {
            law_settings_kept(peer, Call::Init, stage, queue, reply);
        },
        Change::Register(..) => {},
    }
}

/// The id of a peer never changes, nor the name of its data channel nor its settings, whatever
/// happens to it; an initiator stays one.
pub proof fn law_id_never_changes<C, D, F>(
    peer: PeerView<C, D, F>,
    changes: Seq<Change<C, D, F>>,
)
    ensures
        peer.history(changes).id == peer.id,
        peer.history(changes).connection_config == peer.connection_config,
        peer.history(changes).offer_config == peer.offer_config,
        peer.history(changes).answer_config == peer.answer_config,
        peer.history(changes).data_channel_name == peer.data_channel_name,
        peer.history(changes).data_channel_config == peer.data_channel_config,
        peer.initiator ==> peer.history(changes).initiator,
    decreases changes.len(),
{
    if changes.len() > 0 {
        law_id_never_changes(peer, changes.drop_last());
        lemma_change_keeps_settings(peer.history(changes.drop_last()), changes.last());
    }
}

/// Whether a call closes the peer.
pub open spec fn closes<D>(call: Call<D>) -> bool {
    match call {
        Call::Close => true,
        Call::StateChange(state) => crate::protocol::is_over(state),
        _ => false,
    }
}

/// The data channel that a peer holds is the one that was observed last, until the peer is closed.
/// Nothing else changes it.
pub proof fn law_data_channel<C, D, F>(peer: PeerView<C, D, F>, change: Change<C, D, F>)
    requires
        change matches Change::Resume(stage, _, reply) ==> stage.awaits(reply),
    ensures
        peer.changed(change).data_channel == match change {
            Change::Resume(Stage::ObservingChannel(channel, _), _, _) => Some(channel),
            Change::Start(call) => if closes(call) {
                None
            } else {
                peer.data_channel
            },
            _ => peer.data_channel,
        },
{
}

/// The connection that a peer holds is the first that was opened for it, until the peer is closed.
/// A close gives it up at once, or, where there is a data channel, when that is closed. Nothing
/// else changes it.
pub proof fn law_connection<C, D, F>(peer: PeerView<C, D, F>, change: Change<C, D, F>)
    requires
        change matches Change::Resume(stage, _, reply) ==> stage.awaits(reply),
    ensures
        peer.changed(change).connection == match change {
            Change::Resume(
                Stage::Opening(_),
                _,
                Reply::Connection(opened),
            ) => crate::atomic_option::filled(peer.connection, opened),
            Change::Resume(Stage::ClosingChannel(_), _, Reply::Done) => None,
            Change::Start(call) => if closes(call) && peer.data_channel is None {
                None
            } else {
                peer.connection
            },
            _ => peer.connection,
        },
{
}

}
