//! The rules of a session, stated over mathematical values: what a
//! subscription request does to the session, what each inbound frame does
//! while a request awaits its confirmation, and what the reader gets to
//! see.

use vstd::prelude::*;
use crate::common::Symbol;
use crate::ws::error::{WsError, WsErrorView};
use crate::ws::frames::{ControlRequestView, PendingControlRequest};
use crate::ws::models::{ChannelView, EventData, WsResponse, WsResponseData};
use crate::ws::subscriptions::{
    accepted_len, insert_all, lemma_accepted_len, lemma_accepted_len_bound,
    lemma_insert_all_contains, lemma_insert_all_no_duplicates,
    lemma_insert_then_remove, lemma_remove_all_no_duplicates, remove_all,
};

verus! {

/// How many frames may pass after a request was written before its
/// confirmation is given up.
pub const CONFIRMATION_WINDOW: usize = 100;

/// Seconds between two keepalive frames, and between two attempts to connect.
pub const PING_INTERVAL_SECS: u64 = 15;

/// Where a connection stands.
#[derive(Clone, Copy, Debug, PartialEq, Eq, Structural)]
pub enum ConnectionState {
    /// No transport.
    Disconnected,
    /// The transport is being opened.
    Connecting,
    /// The transport is open and the login frame is to be written.
    Authenticating,
    /// Frames can be exchanged.
    Ready,
}

/// What the driver of a session does next on behalf of a subscription
/// request.
#[derive(Debug)]
pub enum ControlStep {
    /// Write this request's frame, then read a frame and hand it in.
    Send(PendingControlRequest),
    /// Read a frame and hand it in.
    Receive,
    /// Nothing: every channel of the request was confirmed.
    Complete,
}

/// A step as a mathematical value.
pub enum ControlStepView {
    Send(ControlRequestView),
    Receive,
    Complete,
}

impl View for ControlStep {
    type V = ControlStepView;

    open spec fn view(&self) -> ControlStepView {
        match self {
            ControlStep::Send(request) => ControlStepView::Send(request@),
            ControlStep::Receive => ControlStepView::Receive,
            ControlStep::Complete => ControlStepView::Complete,
        }
    }
}

/// The view of what a control operation returned.
pub open spec fn outcome_view(outcome: Result<ControlStep, WsError>) -> Result<
    ControlStepView,
    WsErrorView,
> {
    match outcome {
        Ok(step) => Ok(step@),
        Err(error) => Err(error@),
    }
}

/// One item for the reader: the market it is about, where the frame named
/// one, and the data.
pub type Event = (Option<Symbol>, EventData);

/// Whether `response` confirms a request of the given direction. The tag
/// alone decides; a keepalive answer confirms nothing.
pub open spec fn confirms(response: WsResponse, subscribe: bool) -> bool {
    if subscribe {
        response.type_ is Subscribed
    } else {
        response.type_ is Unsubscribed
    }
}

/// What the reader is handed: an event, or the error frame that the exchange
/// sent in its place.
pub type Delivery = Result<Event, WsError>;

/// What a frame holds for the reader, in order. A keepalive answer holds
/// nothing, whatever it carries. An error frame is handed on whole, as the
/// error `Rejected`, and never as data. Any other frame gives one event per
/// trade of a trade list, one event for any other payload, and nothing
/// without a payload.
pub open spec fn deliveries_of(response: WsResponse) -> Seq<Delivery> {
    if response.type_ is Pong {
        Seq::empty()
    } else if response.type_ is Error {
        seq![Err(WsError::Rejected(response))]
    } else {
        match response.data {
            None => Seq::empty(),
            Some(WsResponseData::Trades(trades)) => Seq::new(
                trades@.len(),
                |i: int| Ok((response.market, EventData::Trade(trades@[i]))),
            ),
            Some(WsResponseData::Ticker(ticker)) => seq![
                Ok((response.market, EventData::Ticker(ticker))),
            ],
            Some(WsResponseData::OrderbookData(orderbook)) => seq![
                Ok((response.market, EventData::OrderbookData(orderbook))),
            ],
            Some(WsResponseData::Fill(fill)) => seq![Ok((response.market, EventData::Fill(fill)))],
            Some(WsResponseData::Order(order)) => seq![
                Ok((response.market, EventData::Order(order))),
            ],
        }
    }
}

/// The channels that a session of the given standing may subscribe to: all of
/// them once signed in, the public ones otherwise.
pub open spec fn admits(is_authenticated: bool) -> spec_fn(ChannelView) -> bool {
    |channel: ChannelView| is_authenticated || !channel.is_private()
}

/// The channels that are in `desired`.
pub open spec fn holds(desired: Seq<ChannelView>) -> spec_fn(ChannelView) -> bool {
    |channel: ChannelView| desired.contains(channel)
}

/// A subscription request in progress.
pub struct PendingView {
    /// `true` while subscribing, `false` while unsubscribing.
    pub subscribe: bool,
    /// The channels of the request, in the order given.
    pub channels: Seq<ChannelView>,
    /// Which of them awaits its confirmation; those before it are confirmed.
    pub position: int,
    /// How many frames were read since that channel's frame was written that
    /// were neither its confirmation nor a keepalive answer.
    pub inspected: int,
}

impl PendingView {
    pub open spec fn wf(self) -> bool {
        &&& 0 <= self.position < self.channels.len()
        &&& 0 <= self.inspected < CONFIRMATION_WINDOW
    }

    /// The request that awaits its confirmation.
    pub open spec fn request(self) -> ControlRequestView {
        ControlRequestView { channel: self.channels[self.position], subscribe: self.subscribe }
    }
}

/// A session.
pub struct SessionView {
    /// The channels the client wants, oldest first.
    pub desired: Seq<ChannelView>,
    /// What was decoded for the reader and not yet read, oldest first.
    pub buffered: Seq<Delivery>,
    /// Whether the session signed in.
    pub is_authenticated: bool,
    pub state: ConnectionState,
    /// The subscription request in progress, if any.
    pub pending: Option<PendingView>,
}

/// A session after an operation, and what the operation returned.
pub struct Transition {
    pub session: SessionView,
    pub outcome: Result<ControlStepView, WsErrorView>,
}

impl SessionView {
    /// No channel is wanted twice, and a request in progress is within its
    /// bounds.
    pub open spec fn wf(self) -> bool {
        &&& self.desired.no_duplicates()
        &&& self.pending matches Some(pending) ==> pending.wf()
    }

    /// A session on a transport that was just opened.
    pub open spec fn connected(credentials: bool) -> SessionView {
        SessionView {
            desired: Seq::empty(),
            buffered: Seq::empty(),
            is_authenticated: credentials,
            state: if credentials {
                ConnectionState::Authenticating
            } else {
                ConnectionState::Ready
            },
            pending: None,
        }
    }

    /// The login frame was written.
    pub open spec fn login_sent(self) -> SessionView {
        SessionView {
            state: if self.state is Authenticating {
                ConnectionState::Ready
            } else {
                self.state
            },
            ..self
        }
    }

    /// The transport failed: the session is disconnected and signed out, and
    /// the request in progress is dropped. What the client wants and what was
    /// decoded stay.
    pub open spec fn connection_lost(self) -> SessionView {
        SessionView {
            state: ConnectionState::Disconnected,
            is_authenticated: false,
            pending: None,
            ..self
        }
    }

    /// The transport was opened anew: the session is as if just connected,
    /// but for what the client wants and what was decoded, which stay.
    pub open spec fn reconnected(self, credentials: bool) -> SessionView {
        SessionView {
            desired: self.desired,
            buffered: self.buffered,
            ..SessionView::connected(credentials)
        }
    }

    /// Starts a request for `channels`: with none there is nothing to do,
    /// otherwise the first channel's frame is to be written.
    pub open spec fn begin(self, channels: Seq<ChannelView>, subscribe: bool) -> Transition {
        if channels.len() == 0 {
            Transition { session: self, outcome: Ok(ControlStepView::Complete) }
        } else {
            let pending = PendingView { subscribe, channels, position: 0, inspected: 0 };
            Transition {
                session: SessionView { pending: Some(pending), ..self },
                outcome: Ok(ControlStepView::Send(pending.request())),
            }
        }
    }

    /// Subscribes to `channels`. If the session may not have one of them the
    /// operation fails and nothing changes; otherwise all of them are wanted
    /// from now on and the request starts.
    pub open spec fn subscribe(self, channels: Seq<ChannelView>) -> Transition {
        if accepted_len(channels, admits(self.is_authenticated)) < channels.len() {
            Transition { session: self, outcome: Err(WsErrorView::SocketNotAuthenticated) }
        } else {
            (SessionView { desired: insert_all(self.desired, channels), ..self }).begin(
                channels,
                true,
            )
        }
    }

    /// Unsubscribes from `channels`. If one of them is not wanted the
    /// operation fails with the first such channel and nothing changes;
    /// otherwise the request starts. The channels stay wanted until the last
    /// of them is confirmed.
    pub open spec fn unsubscribe(self, channels: Seq<ChannelView>) -> Transition {
        let known = accepted_len(channels, holds(self.desired));
        if known < channels.len() {
            Transition {
                session: self,
                outcome: Err(WsErrorView::NotSubscribedToThisChannel(channels[known as int])),
            }
        } else {
            self.begin(channels, false)
        }
    }

    /// Hands what `response` holds to the reader's queue.
    pub open spec fn add_to_buffer(self, response: WsResponse) -> SessionView {
        SessionView { buffered: self.buffered + deliveries_of(response), ..self }
    }

    /// Takes one inbound frame while a request is in progress.
    ///
    /// A keepalive answer changes nothing. A confirmation of the request's
    /// direction moves on to the next channel, whose frame is to be written,
    /// or completes the request; completing an unsubscription takes the
    /// request's channels out of the wanted ones. Any other frame, an error
    /// frame too, goes to the reader's queue as in a session at rest and
    /// counts against the window; the frame that fills the window fails the
    /// request, which is then dropped.
    pub open spec fn receive(self, response: WsResponse) -> Transition
        recommends
            self.pending is Some,
    {
        let pending = self.pending->0;
        if response.type_ is Pong {
            Transition { session: self, outcome: Ok(ControlStepView::Receive) }
        } else if confirms(response, pending.subscribe) {
            if pending.position + 1 < pending.channels.len() {
                let next = PendingView {
                    position: pending.position + 1,
                    inspected: 0,
                    ..pending
                };
                Transition {
                    session: SessionView { pending: Some(next), ..self },
                    outcome: Ok(ControlStepView::Send(next.request())),
                }
            } else {
                Transition {
                    session: SessionView {
                        desired: if pending.subscribe {
                            self.desired
                        } else {
                            remove_all(self.desired, pending.channels)
                        },
                        pending: None,
                        ..self
                    },
                    outcome: Ok(ControlStepView::Complete),
                }
            }
        } else if pending.inspected + 1 < CONFIRMATION_WINDOW {
            Transition {
                session: SessionView {
                    pending: Some(PendingView { inspected: pending.inspected + 1, ..pending }),
                    ..self.add_to_buffer(response)
                },
                outcome: Ok(ControlStepView::Receive),
            }
        } else {
            Transition {
                session: SessionView { pending: None, ..self.add_to_buffer(response) },
                outcome: Err(WsErrorView::MissingSubscriptionConfirmation),
            }
        }
    }
}

/// Whether an error costs the connection: a failure of the transport does,
/// and so does a frame that does not decode, after which the frames that
/// follow cannot be trusted. Every other error leaves the connection up.
pub open spec fn loses_connection(error: WsErrorView) -> bool {
    error is Tungstenite || error is Serde
}

/// What the transport produced at the one point where a session waits.
#[derive(Debug)]
pub enum Inbound {
    /// The keepalive timer fired.
    Tick,
    /// A text frame arrived: what it decoded to, or why it did not decode.
    Text(Result<WsResponse, serde_json::Error>),
    /// A frame arrived that is not text.
    Other,
    /// Reading failed.
    Failed(tokio_tungstenite::tungstenite::Error),
}

/// What the driver does with what the transport produced.
#[derive(Debug)]
pub enum ReadStep {
    /// Write the keepalive frame and wait again.
    Ping,
    /// Wait again.
    Skip,
    /// Hand this frame to the session.
    Deliver(WsResponse),
    /// Stop with this error.
    Fail(WsError),
}

/// The timer asks for a keepalive frame. A decoded frame is handed to the
/// session unless it is a keepalive answer, which is dropped. A frame that is
/// not text is dropped; a frame that does not decode and a failed read stop
/// the wait.
pub open spec fn read_step(inbound: Inbound) -> ReadStep {
    match inbound {
        Inbound::Tick => ReadStep::Ping,
        Inbound::Text(Ok(response)) => if response.type_ is Pong {
            ReadStep::Skip
        } else {
            ReadStep::Deliver(response)
        },
        Inbound::Text(Err(error)) => ReadStep::Fail(WsError::Serde(error)),
        Inbound::Other => ReadStep::Skip,
        Inbound::Failed(error) => ReadStep::Fail(WsError::Tungstenite(error)),
    }
}

/// What `frames` hold for the reader, frame after frame.
pub open spec fn deliveries_of_all(frames: Seq<WsResponse>) -> Seq<Delivery>
    decreases frames.len(),
{
    if frames.len() == 0 {
        Seq::empty()
    } else {
        deliveries_of(frames[0]) + deliveries_of_all(frames.drop_first())
    }
}

impl SessionView {
    /// Takes `frames` one after another until the request in progress ends or
    /// the frames do, and gives the session then and what the last frame taken
    /// returned. With no request in progress nothing is taken and the outcome
    /// is `Complete`; with no frames the outcome is `Receive`.
    pub open spec fn receive_all(self, frames: Seq<WsResponse>) -> Transition
        decreases frames.len(),
    {
        if self.pending is None {
            Transition { session: self, outcome: Ok(ControlStepView::Complete) }
        } else if frames.len() == 0 {
            Transition { session: self, outcome: Ok(ControlStepView::Receive) }
        } else {
            let first = self.receive(frames[0]);
            if frames.len() == 1 || first.session.pending is None {
                first
            } else {
                first.session.receive_all(frames.drop_first())
            }
        }
    }
}

/// An account channel among those asked for makes a session that did not sign
/// in refuse the whole subscription: the call fails with
/// `SocketNotAuthenticated` and the session stays as it was. No channel of
/// the list is wanted on that account, no request is started and so no frame
/// is to be written, and nothing reaches the reader.
pub proof fn lemma_private_channel_needs_login(
    session: SessionView,
    channels: Seq<ChannelView>,
    i: int,
)
    requires
        !session.is_authenticated,
        0 <= i < channels.len(),
        channels[i].is_private(),
    ensures
        session.subscribe(channels).outcome == Err::<ControlStepView, WsErrorView>(
            WsErrorView::SocketNotAuthenticated,
        ),
        session.subscribe(channels).session == session,
{
    lemma_accepted_len_bound(channels, admits(false), i);
}

/// A keepalive answer is never an event, never a confirmation, and never
/// more than skipped: it reaches neither the reader nor a request in
/// progress, whatever it carries.
pub proof fn lemma_pong_is_inert(response: WsResponse, session: SessionView)
    requires
        response.type_ is Pong,
    ensures
        deliveries_of(response) == Seq::<Delivery>::empty(),
        !confirms(response, true),
        !confirms(response, false),
        read_step(Inbound::Text(Ok(response))) == ReadStep::Skip,
        session.add_to_buffer(response) == session,
        session.pending is Some ==> session.receive(response).session == session
            && session.receive(response).outcome == Ok::<ControlStepView, WsErrorView>(
            ControlStepView::Receive,
        ),
{
}

/// An error frame is never data and never a confirmation: it reaches the
/// reader as the error `Rejected`, in its place among the events. While a
/// request is in progress it is one more frame of the window: the request
/// goes on waiting, or fails with `MissingSubscriptionConfirmation` if the
/// frame fills the window, and the wanted channels stay.
pub proof fn lemma_error_frame_is_surfaced(response: WsResponse, session: SessionView)
    requires
        response.type_ is Error,
    ensures
        deliveries_of(response) == seq![Err::<Event, WsError>(WsError::Rejected(response))],
        !confirms(response, true),
        !confirms(response, false),
        read_step(Inbound::Text(Ok(response))) == ReadStep::Deliver(response),
        session.add_to_buffer(response).buffered == session.buffered.push(
            Err(WsError::Rejected(response)),
        ),
        session.pending matches Some(pending) ==> {
            let after = session.receive(response);
            &&& after.session.buffered == session.buffered.push(Err(WsError::Rejected(response)))
            &&& after.session.desired == session.desired
            &&& after.outcome == if pending.inspected + 1 < CONFIRMATION_WINDOW {
                Ok::<ControlStepView, WsErrorView>(ControlStepView::Receive)
            } else {
                Err::<ControlStepView, WsErrorView>(WsErrorView::MissingSubscriptionConfirmation)
            }
            &&& after.session.pending == if pending.inspected + 1 < CONFIRMATION_WINDOW {
                Some(PendingView { inspected: pending.inspected + 1, ..pending })
            } else {
                None::<PendingView>
            }
        },
{
    assert(session.buffered + deliveries_of(response) =~= session.buffered.push(
        Err(WsError::Rejected(response)),
    ));
}

/// While a request is in progress its channels and its direction stay, and
/// the wanted channels change at one point only: when an unsubscription
/// completes, its channels are taken out.
pub proof fn lemma_receive_all_keeps_request(session: SessionView, frames: Seq<WsResponse>)
    requires
        session.wf(),
    ensures
        ({
            let end = session.receive_all(frames);
            &&& end.session.wf()
            &&& end.session.is_authenticated == session.is_authenticated
            &&& end.session.state == session.state
            &&& match session.pending {
                None => end.session == session,
                Some(pending) => {
                    &&& end.outcome == Ok::<ControlStepView, WsErrorView>(ControlStepView::Complete)
                        ==> end.session.pending is None && end.session.desired == if pending.subscribe {
                        session.desired
                    } else {
                        remove_all(session.desired, pending.channels)
                    }
                    &&& end.outcome != Ok::<ControlStepView, WsErrorView>(ControlStepView::Complete)
                        ==> end.session.desired == session.desired
                    &&& end.session.pending matches Some(later) ==> later.channels
                        == pending.channels && later.subscribe == pending.subscribe
                },
            }
        }),
    decreases frames.len(),
{
    if session.pending is Some && frames.len() > 0 {
        let pending = session.pending->0;
        let first = session.receive(frames[0]);
        if !pending.subscribe {
            lemma_remove_all_no_duplicates(session.desired, pending.channels);
        }
        if frames.len() > 1 {
            lemma_receive_all_keeps_request(first.session, frames.drop_first());
        }
    }
}

/// Frames that do not confirm the request in progress, as long as they fit
/// into the window, change nothing but the reader's queue: the confirmation
/// that follows them does what it would have done at once, and what they hold
/// is queued in the order the frames came, each item once.
pub proof fn lemma_confirmation_after_other_frames(
    session: SessionView,
    others: Seq<WsResponse>,
    confirmation: WsResponse,
)
    requires
        session.wf(),
        session.pending matches Some(pending) && pending.inspected + others.len()
            < CONFIRMATION_WINDOW && confirms(confirmation, pending.subscribe) && forall|i: int|
            0 <= i < others.len() ==> !confirms(#[trigger] others[i], pending.subscribe),
    ensures
        session.receive_all(others.push(confirmation)).outcome == session.receive(
            confirmation,
        ).outcome,
        session.receive_all(others.push(confirmation)).session == (SessionView {
            buffered: session.buffered + deliveries_of_all(others),
            ..session.receive(confirmation).session
        }),
    decreases others.len(),
{
    let frames = others.push(confirmation);
    if others.len() > 0 {
        let first = session.receive(others[0]);
        let rest = others.drop_first();
        assert(frames.drop_first() =~= rest.push(confirmation));
        lemma_confirmation_after_other_frames(first.session, rest, confirmation);
        assert(first.session.buffered + deliveries_of_all(rest) =~= session.buffered + deliveries_of_all(
            others,
        ));
    }
}

/// A request whose confirmation does not come within the window fails with
/// `MissingSubscriptionConfirmation` at the frame that fills the window,
/// whatever the frames are; only keepalive answers do not count.
/// Until then every frame is answered with `Receive`, so nothing is written a
/// second time; the frames' events reach the reader, and the wanted channels
/// stay as they were.
pub proof fn lemma_window_exhausted(session: SessionView, frames: Seq<WsResponse>)
    requires
        session.wf(),
        session.pending matches Some(pending) && pending.inspected + frames.len()
            == CONFIRMATION_WINDOW && forall|i: int|
            0 <= i < frames.len() ==> !confirms(#[trigger] frames[i], pending.subscribe)
                && !(frames[i].type_ is Pong),
    ensures
        session.receive_all(frames).outcome == Err::<ControlStepView, WsErrorView>(
            WsErrorView::MissingSubscriptionConfirmation,
        ),
        session.receive_all(frames).session == (SessionView {
            buffered: session.buffered + deliveries_of_all(frames),
            pending: None,
            ..session
        }),
        forall|k: int|
            0 <= k < frames.len() ==> (#[trigger] session.receive_all(frames.take(k))).outcome
                == Ok::<ControlStepView, WsErrorView>(ControlStepView::Receive),
    decreases frames.len(),
{
    let first = session.receive(frames[0]);
    let rest = frames.drop_first();
    if frames.len() == 1 {
        assert(session.buffered + deliveries_of_all(frames) =~= session.buffered + deliveries_of(
            frames[0],
        ));
    } else {
        lemma_window_exhausted(first.session, rest);
        assert(first.session.buffered + deliveries_of_all(rest) =~= session.buffered + deliveries_of_all(
            frames,
        ));
    }
    assert forall|k: int| 0 <= k < frames.len() implies (#[trigger] session.receive_all(
        frames.take(k),
    )).outcome == Ok::<ControlStepView, WsErrorView>(ControlStepView::Receive) by {
        if k > 1 {
            assert(frames.take(k).drop_first() =~= rest.take(k - 1));
            assert(first.session.receive_all(rest.take(k - 1)).outcome == Ok::<
                ControlStepView,
                WsErrorView,
            >(ControlStepView::Receive));
        }
    }
}

/// Subscribing to channels of which none was wanted and then unsubscribing
/// from the same channels, each request seen through to its completion,
/// leaves wanted exactly what was wanted before the two, in the same order.
/// The channels asked for may repeat. (A channel that was wanted before
/// would be gone after.)
pub proof fn lemma_subscribe_then_unsubscribe(
    session: SessionView,
    channels: Seq<ChannelView>,
    subscribing: Seq<WsResponse>,
    unsubscribing: Seq<WsResponse>,
)
    requires
        session.wf(),
        session.pending is None,
        forall|i: int| 0 <= i < channels.len() ==> !session.desired.contains(#[trigger] channels[i]),
        session.subscribe(channels).outcome is Ok,
        session.subscribe(channels).session.receive_all(subscribing).outcome == Ok::<
            ControlStepView,
            WsErrorView,
        >(ControlStepView::Complete),
        session.subscribe(channels).session.receive_all(subscribing).session.unsubscribe(
            channels,
        ).session.receive_all(unsubscribing).outcome == Ok::<ControlStepView, WsErrorView>(
            ControlStepView::Complete,
        ),
    ensures
        session.subscribe(channels).session.receive_all(subscribing).session.unsubscribe(
            channels,
        ).outcome is Ok,
        session.subscribe(channels).session.receive_all(subscribing).session.unsubscribe(
            channels,
        ).session.receive_all(unsubscribing).session.desired == session.desired,
{
    let started = session.subscribe(channels).session;
    let wanted = insert_all(session.desired, channels);
    lemma_insert_all_no_duplicates(session.desired, channels);
    let subscribed = started.receive_all(subscribing).session;
    lemma_receive_all_keeps_request(started, subscribing);
    lemma_insert_all_contains(session.desired, channels);
    lemma_accepted_len(channels, holds(wanted), channels.len() as int);
    let leaving = subscribed.unsubscribe(channels).session;
    lemma_receive_all_keeps_request(leaving, unsubscribing);
    lemma_insert_then_remove(session.desired, channels);
}

} // verus!
