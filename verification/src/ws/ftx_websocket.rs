//! A session with the exchange, without its socket: the driver opens the
//! transport, writes the frames this session asks for and hands it the frames
//! that arrive.

use std::collections::VecDeque;
use vstd::prelude::*;
use crate::common::clone_optional;
use crate::ftx_auth_settings::FtxAuthSettings;
use crate::ws::error::WsError;
use crate::ws::frames::{login_request, optional_view, LoginRequest, PendingControlRequest};
use crate::ws::models::{EventData, WsChannel, WsMessageType, WsResponse, WsResponseData};
use crate::ws::protocol::{
    admits, deliveries_of, holds, loses_connection, outcome_view, read_step, ConnectionState,
    ControlStep, Delivery, Event, Inbound, PendingView, ReadStep, SessionView,
    CONFIRMATION_WINDOW,
};
use crate::ws::subscriptions::{
    channel_views, contains, insert_all, insert_channel, lemma_accepted_len,
    lemma_insert_all_no_duplicates, lemma_insert_all_push, lemma_remove_all_no_duplicates,
    remove_channels,
};

verus! {

/// A subscription request in progress.
struct ControlRun {
    subscribe: bool,
    channels: Vec<WsChannel>,
    position: usize,
    inspected: usize,
}

impl View for ControlRun {
    type V = PendingView;

    closed spec fn view(&self) -> PendingView {
        PendingView {
            subscribe: self.subscribe,
            channels: channel_views(self.channels@),
            position: self.position as int,
            inspected: self.inspected as int,
        }
    }
}

/// A session on one connection: the channels the client wants, the events
/// decoded and not yet read, and the subscription request in progress, if
/// any. The reader pulls events with `poll_next`.
pub struct FtxWebsocket {
    channels: Vec<WsChannel>,
    buf: VecDeque<Delivery>,
    is_authenticated: bool,
    state: ConnectionState,
    pending: Option<ControlRun>,
}

impl View for FtxWebsocket {
    type V = SessionView;

    closed spec fn view(&self) -> SessionView {
        SessionView {
            desired: channel_views(self.channels@),
            buffered: self.buf@,
            is_authenticated: self.is_authenticated,
            state: self.state,
            pending: match self.pending {
                Some(run) => Some(run@),
                None => None,
            },
        }
    }
}

fn clone_channels(channels: &[WsChannel]) -> (copy: Vec<WsChannel>)
    ensures
        copy@ == channels@,
{
    let mut copy: Vec<WsChannel> = Vec::new();
    let mut i: usize = 0;
    while i < channels.len()
        invariant
            i <= channels@.len(),
            copy@ == channels@.take(i as int),
        decreases channels@.len() - i,
    {
        copy.push(channels[i].clone());
        i += 1;
    }
    copy
}

/// The login request of the account at `time`, where a key and a secret are
/// given.
fn sign_in(
    key: Option<String>,
    secret: Option<String>,
    subaccount: Option<String>,
    time: u64,
) -> (login: Option<LoginRequest>)
    ensures
        match (key, secret) {
            (Some(key), Some(secret)) => login matches Some(login) && login@ == login_request(
                key@,
                secret@,
                optional_view(subaccount),
                time,
            ) && login.sign@.len() == 64,
            _ => login is None,
        },
{
    match (key, secret) {
        (Some(key), Some(secret)) => {
            let settings = FtxAuthSettings { api_key: key, api_secret: secret, subaccount };
            let sign = settings.generate_sign("websocket_login", time as u128);
            Some(
                LoginRequest {
                    key: settings.api_key,
                    sign,
                    time,
                    subaccount: settings.subaccount,
                },
            )
        },
        _ => None,
    }
}

impl FtxWebsocket {
    /// The address of the exchange's streaming endpoint.
    pub const ENDPOINT: &'static str = "wss://ftx.com/ws";

    /// A session on a transport that was just opened at `timestamp`, and the
    /// login request to write first where a key and a secret are given. The
    /// request carries the low 64 bits of the timestamp and is signed at the
    /// time it carries. The session counts as signed in from the start: the
    /// exchange does not answer a login, and a bad one shows when an account
    /// channel is refused.
    pub fn connect_at(
        key: Option<String>,
        secret: Option<String>,
        subaccount: Option<String>,
        timestamp: u128,
    ) -> (opened: (FtxWebsocket, Option<LoginRequest>))
        ensures
            opened.0@ == SessionView::connected(key is Some && secret is Some),
            opened.0@.wf(),
            match (key, secret) {
                (Some(key), Some(secret)) => opened.1 matches Some(login) && login@
                    == login_request(key@, secret@, optional_view(subaccount), timestamp as u64)
                    && login.sign@.len() == 64,
                _ => opened.1 is None,
            },
    {
        let login = sign_in(key, secret, subaccount, timestamp as u64);
        let session = FtxWebsocket {
            channels: Vec::new(),
            buf: VecDeque::new(),
            is_authenticated: login.is_some(),
            state: if login.is_some() {
                ConnectionState::Authenticating
            } else {
                ConnectionState::Ready
            },
            pending: None,
        };
        assert(channel_views(session.channels@) =~= Seq::empty());
        (session, login)
    }

    /// A session on a transport that was just opened, signed at the time the
    /// system clock shows: whatever that time is, the login request carries
    /// it and is signed at the time it carries. Without a key or without a
    /// secret there is nothing to sign and the clock is not read.
    pub fn connect(key: Option<String>, secret: Option<String>, subaccount: Option<String>) -> (opened:
        Result<(FtxWebsocket, Option<LoginRequest>), WsError>)
        ensures
            match (key, secret) {
                (Some(key), Some(secret)) => match opened {
                    Ok((session, login)) => {
                        &&& session@ == SessionView::connected(true)
                        &&& session@.wf()
                        &&& login matches Some(login) && login@ == login_request(
                            key@,
                            secret@,
                            optional_view(subaccount),
                            login.time,
                        ) && login.sign@.len() == 64
                    },
                    Err(error) => error is SystemTime,
                },
                _ => opened matches Ok((session, login)) && session@ == SessionView::connected(
                    false,
                ) && session@.wf() && login is None,
            },
    {
        if key.is_some() && secret.is_some() {
            match FtxAuthSettings::generate_timestamp() {
                Ok(timestamp) => Ok(FtxWebsocket::connect_at(key, secret, subaccount, timestamp)),
                Err(error) => Err(WsError::SystemTime(error)),
            }
        } else {
            Ok(FtxWebsocket::connect_at(key, secret, subaccount, 0))
        }
    }

    /// Records that the login frame was written: a session that was signing in
    /// is ready.
    pub fn login_sent(&mut self)
        ensures
            final(self)@ == old(self)@.login_sent(),
    {
        if let ConnectionState::Authenticating = self.state {
            self.state = ConnectionState::Ready;
        }
    }

    /// Records that the transport failed.
    pub fn connection_lost(&mut self)
        ensures
            final(self)@ == old(self)@.connection_lost(),
    {
        self.state = ConnectionState::Disconnected;
        self.is_authenticated = false;
        self.pending = None;
    }

    /// Starts the request for `channels`.
    fn begin(&mut self, channels: &[WsChannel], subscribe: bool) -> (outcome: Result<
        ControlStep,
        WsError,
    >)
        requires
            old(self)@.wf(),
            old(self)@.pending is None,
        ensures
            final(self)@.wf(),
            final(self)@ == old(self)@.begin(channel_views(channels@), subscribe).session,
            outcome_view(outcome) == old(self)@.begin(channel_views(channels@), subscribe).outcome,
    {
        if channels.len() == 0 {
            return Ok(ControlStep::Complete);
        }
        let queue = clone_channels(channels);
        let request = PendingControlRequest { channel: channels[0].clone(), subscribe };
        self.pending = Some(ControlRun { subscribe, channels: queue, position: 0, inspected: 0 });
        Ok(ControlStep::Send(request))
    }

    /// Subscribes to `channels`, one at a time and in the order given.
    ///
    /// An account channel on a session that did not sign in fails the call
    /// with `SocketNotAuthenticated`: nothing changes and nothing is to be
    /// written. Otherwise all channels are wanted from now on and the first
    /// one's frame is to be written.
    pub fn subscribe(&mut self, channels: &[WsChannel]) -> (outcome: Result<ControlStep, WsError>)
        requires
            old(self)@.wf(),
            old(self)@.pending is None,
        ensures
            final(self)@.wf(),
            final(self)@ == old(self)@.subscribe(channel_views(channels@)).session,
            outcome_view(outcome) == old(self)@.subscribe(channel_views(channels@)).outcome,
    {
        let ghost views = channel_views(channels@);
        let ghost before = self@;
        let mut i: usize = 0;
        while i < channels.len()
            invariant
                i <= channels@.len(),
                views == channel_views(channels@),
                *self == *old(self),
                self@.wf(),
                forall|j: int|
                    0 <= j < i ==> admits(self@.is_authenticated)(#[trigger] views[j]),
            decreases channels@.len() - i,
        {
            if channels[i].is_private() && !self.is_authenticated {
                proof {
                    lemma_accepted_len(views, admits(self@.is_authenticated), i as int);
                }
                return Err(WsError::SocketNotAuthenticated);
            }
            i += 1;
        }
        proof {
            lemma_accepted_len(views, admits(before.is_authenticated), i as int);
        }
        let mut k: usize = 0;
        while k < channels.len()
            invariant
                k <= channels@.len(),
                views == channel_views(channels@),
                before == old(self)@,
                before.desired.no_duplicates(),
                before.pending is None,
                self@ == (SessionView {
                    desired: insert_all(before.desired, views.take(k as int)),
                    ..before
                }),
            decreases channels@.len() - k,
        {
            insert_channel(&mut self.channels, &channels[k]);
            proof {
                lemma_insert_all_push(before.desired, views.take(k as int), views[k as int]);
                assert(views.take(k + 1) =~= views.take(k as int).push(views[k as int]));
            }
            k += 1;
        }
        proof {
            assert(views.take(k as int) =~= views);
            lemma_insert_all_no_duplicates(before.desired, views);
        }
        self.begin(channels, true)
    }

    /// Unsubscribes from `channels`, one at a time and in the order given.
    ///
    /// A channel that is not wanted fails the call with
    /// `NotSubscribedToThisChannel`, naming the first such channel; nothing
    /// changes and nothing is to be written. Otherwise the first channel's
    /// frame is to be written.
    pub fn unsubscribe(&mut self, channels: &[WsChannel]) -> (outcome: Result<ControlStep, WsError>)
        requires
            old(self)@.wf(),
            old(self)@.pending is None,
        ensures
            final(self)@.wf(),
            final(self)@ == old(self)@.unsubscribe(channel_views(channels@)).session,
            outcome_view(outcome) == old(self)@.unsubscribe(channel_views(channels@)).outcome,
    {
        let ghost views = channel_views(channels@);
        let mut i: usize = 0;
        while i < channels.len()
            invariant
                i <= channels@.len(),
                views == channel_views(channels@),
                *self == *old(self),
                self@.wf(),
                self@.pending is None,
                forall|j: int| 0 <= j < i ==> holds(self@.desired)(#[trigger] views[j]),
            decreases channels@.len() - i,
        {
            if !contains(self.channels.as_slice(), &channels[i]) {
                proof {
                    lemma_accepted_len(views, holds(self@.desired), i as int);
                }
                return Err(WsError::NotSubscribedToThisChannel(channels[i].clone()));
            }
            i += 1;
        }
        proof {
            lemma_accepted_len(views, holds(self@.desired), i as int);
        }
        self.begin(channels, false)
    }

    /// Unsubscribes from every channel that is wanted.
    pub fn unsubscribe_all(&mut self) -> (outcome: Result<ControlStep, WsError>)
        requires
            old(self)@.wf(),
            old(self)@.pending is None,
        ensures
            final(self)@.wf(),
            final(self)@ == old(self)@.unsubscribe(old(self)@.desired).session,
            outcome_view(outcome) == old(self)@.unsubscribe(old(self)@.desired).outcome,
    {
        let channels = clone_channels(self.channels.as_slice());
        self.unsubscribe(channels.as_slice())
    }

    /// Takes one inbound frame while a request is in progress, and says what
    /// to do next.
    pub fn subscribe_or_unsubscribe(&mut self, response: WsResponse) -> (outcome: Result<
        ControlStep,
        WsError,
    >)
        requires
            old(self)@.wf(),
            old(self)@.pending is Some,
        ensures
            final(self)@.wf(),
            final(self)@ == old(self)@.receive(response).session,
            outcome_view(outcome) == old(self)@.receive(response).outcome,
    {
        if let WsMessageType::Pong = response.type_ {
            return Ok(ControlStep::Receive);
        }
        let run = self.pending.take().unwrap();
        let count: usize = run.channels.len();
        let confirmed = match response.type_ {
            WsMessageType::Subscribed => run.subscribe,
            WsMessageType::Unsubscribed => !run.subscribe,
            _ => false,
        };
        if confirmed {
            if run.position + 1 < count {
                let request = PendingControlRequest {
                    channel: run.channels[run.position + 1].clone(),
                    subscribe: run.subscribe,
                };
                self.pending = Some(
                    ControlRun {
                        subscribe: run.subscribe,
                        channels: run.channels,
                        position: run.position + 1,
                        inspected: 0,
                    },
                );
                Ok(ControlStep::Send(request))
            } else {
                if !run.subscribe {
                    proof {
                        lemma_remove_all_no_duplicates(
                            channel_views(self.channels@),
                            channel_views(run.channels@),
                        );
                    }
                    remove_channels(&mut self.channels, run.channels.as_slice());
                }
                Ok(ControlStep::Complete)
            }
        } else {
            self.add_to_buffer(response);
            if run.inspected + 1 < CONFIRMATION_WINDOW {
                self.pending = Some(
                    ControlRun {
                        subscribe: run.subscribe,
                        channels: run.channels,
                        position: run.position,
                        inspected: run.inspected + 1,
                    },
                );
                Ok(ControlStep::Receive)
            } else {
                Err(WsError::MissingSubscriptionConfirmation)
            }
        }
    }

    /// Queues what `response` holds for the reader.
    pub fn add_to_buffer(&mut self, response: WsResponse)
        ensures
            final(self)@ == old(self)@.add_to_buffer(response),
    {
        let ghost items = deliveries_of(response);
        match response.type_ {
            WsMessageType::Pong => {
                assert(self.buf@ + items =~= self.buf@);
                return ;
            },
            WsMessageType::Error => {
                self.buf.push_back(Err(WsError::Rejected(response)));
                assert(self.buf@ =~= old(self).buf@ + items);
                return ;
            },
            _ => {},
        }
        let market = response.market;
        match response.data {
            None => {
                assert(self.buf@ + items =~= self.buf@);
            },
            Some(WsResponseData::Trades(trades)) => {
                let mut i: usize = 0;
                assert(self.buf@ + items.take(0) =~= self.buf@);
                while i < trades.len()
                    invariant
                        i <= trades@.len(),
                        items == Seq::new(
                            trades@.len(),
                            |k: int| Ok::<Event, WsError>((market, EventData::Trade(trades@[k]))),
                        ),
                        self.buf@ == old(self).buf@ + items.take(i as int),
                        self.channels == old(self).channels,
                        self.is_authenticated == old(self).is_authenticated,
                        self.state == old(self).state,
                        self.pending == old(self).pending,
                    decreases trades@.len() - i,
                {
                    self.buf.push_back(Ok((clone_optional(&market), EventData::Trade(trades[i]))));
                    assert(self.buf@ =~= old(self).buf@ + items.take(i + 1));
                    i += 1;
                }
                assert(items.take(i as int) =~= items);
            },
            Some(WsResponseData::OrderbookData(orderbook)) => {
                self.buf.push_back(Ok((market, EventData::OrderbookData(orderbook))));
                assert(self.buf@ =~= old(self).buf@ + items);
            },
            Some(WsResponseData::Fill(fill)) => {
                self.buf.push_back(Ok((market, EventData::Fill(fill))));
                assert(self.buf@ =~= old(self).buf@ + items);
            },
            Some(WsResponseData::Ticker(ticker)) => {
                self.buf.push_back(Ok((market, EventData::Ticker(ticker))));
                assert(self.buf@ =~= old(self).buf@ + items);
            },
            Some(WsResponseData::Order(order)) => {
                self.buf.push_back(Ok((market, EventData::Order(order))));
                assert(self.buf@ =~= old(self).buf@ + items);
            },
        }
    }

    /// Says what to do with what the transport produced while the session
    /// waited for a frame.
    pub fn next_response(inbound: Inbound) -> (step: ReadStep)
        ensures
            step == read_step(inbound),
    {
        match inbound {
            Inbound::Tick => ReadStep::Ping,
            Inbound::Text(Ok(response)) => match response.type_ {
                WsMessageType::Pong => ReadStep::Skip,
                _ => ReadStep::Deliver(response),
            },
            Inbound::Text(Err(error)) => ReadStep::Fail(WsError::Serde(error)),
            Inbound::Other => ReadStep::Skip,
            Inbound::Failed(error) => ReadStep::Fail(WsError::Tungstenite(error)),
        }
    }

    /// Takes the oldest item out of the reader's queue: an event, or the
    /// error frame that came in its place. `None` means the queue is empty:
    /// the next frame has to be read and handed in.
    pub fn poll_next(&mut self) -> (item: Option<Delivery>)
        ensures
            old(self)@.buffered.len() == 0 ==> item is None && final(self)@ == old(self)@,
            old(self)@.buffered.len() > 0 ==> item == Some(old(self)@.buffered[0]) && final(self)@
                == (SessionView { buffered: old(self)@.buffered.drop_first(), ..old(self)@ }),
    {
        self.buf.pop_front()
    }

    /// How many items wait in the reader's queue, as the lower bound of what
    /// is to come; there is no upper bound.
    pub fn size_hint(&self) -> (hint: (usize, Option<usize>))
        ensures
            hint.0 == self@.buffered.len(),
            hint.1 is None,
    {
        (self.buf.len(), None)
    }

    /// The session on a transport that was opened anew at `timestamp`, and
    /// the login request to write first where a key and a secret are given.
    /// What the client wants and what was decoded stay; a request that was in
    /// progress is dropped.
    pub fn reconnect_at(
        &mut self,
        key: Option<String>,
        secret: Option<String>,
        subaccount: Option<String>,
        timestamp: u128,
    ) -> (login: Option<LoginRequest>)
        ensures
            final(self)@ == old(self)@.reconnected(key is Some && secret is Some),
            match (key, secret) {
                (Some(key), Some(secret)) => login matches Some(login) && login@ == login_request(
                    key@,
                    secret@,
                    optional_view(subaccount),
                    timestamp as u64,
                ) && login.sign@.len() == 64,
                _ => login is None,
            },
    {
        let login = sign_in(key, secret, subaccount, timestamp as u64);
        self.is_authenticated = login.is_some();
        self.state = if login.is_some() {
            ConnectionState::Authenticating
        } else {
            ConnectionState::Ready
        };
        self.pending = None;
        login
    }

    /// The session on a transport that was opened anew, signed at the time
    /// the system clock shows. Where the clock fails the session stays as it
    /// was.
    pub fn reconnect(
        &mut self,
        key: Option<String>,
        secret: Option<String>,
        subaccount: Option<String>,
    ) -> (login: Result<Option<LoginRequest>, WsError>)
        ensures
            match (key, secret) {
                (Some(key), Some(secret)) => match login {
                    Ok(login) => {
                        &&& final(self)@ == old(self)@.reconnected(true)
                        &&& login matches Some(login) && login@ == login_request(
                            key@,
                            secret@,
                            optional_view(subaccount),
                            login.time,
                        ) && login.sign@.len() == 64
                    },
                    Err(error) => error is SystemTime && final(self)@ == old(self)@,
                },
                _ => login matches Ok(None) && final(self)@ == old(self)@.reconnected(false),
            },
    {
        if key.is_some() && secret.is_some() {
            match FtxAuthSettings::generate_timestamp() {
                Ok(timestamp) => Ok(self.reconnect_at(key, secret, subaccount, timestamp)),
                Err(error) => Err(WsError::SystemTime(error)),
            }
        } else {
            Ok(self.reconnect_at(key, secret, subaccount, 0))
        }
    }

    /// Subscribes again to every channel that is wanted, oldest first.
    pub fn resubscribe(&mut self) -> (outcome: Result<ControlStep, WsError>)
        requires
            old(self)@.wf(),
            old(self)@.pending is None,
        ensures
            final(self)@.wf(),
            final(self)@ == old(self)@.subscribe(old(self)@.desired).session,
            outcome_view(outcome) == old(self)@.subscribe(old(self)@.desired).outcome,
    {
        let channels = clone_channels(self.channels.as_slice());
        self.subscribe(channels.as_slice())
    }

    pub fn state(&self) -> (state: ConnectionState)
        ensures
            state == self@.state,
    {
        self.state
    }

    /// Whether frames can be exchanged.
    pub fn is_connected(&self) -> (connected: bool)
        ensures
            connected == (self@.state is Ready),
    {
        match self.state {
            ConnectionState::Ready => true,
            _ => false,
        }
    }

    /// Whether the session signed in.
    pub fn is_authenticated(&self) -> (authenticated: bool)
        ensures
            authenticated == self@.is_authenticated,
    {
        self.is_authenticated
    }

    /// The channels the client wants, oldest first.
    pub fn channels(&self) -> (channels: &[WsChannel])
        ensures
            channel_views(channels@) == self@.desired,
    {
        self.channels.as_slice()
    }

    /// The request that awaits its confirmation, if one does.
    pub fn pending(&self) -> (request: Option<PendingControlRequest>)
        requires
            self@.wf(),
        ensures
            match self@.pending {
                Some(pending) => request matches Some(request) && request@ == pending.request(),
                None => request is None,
            },
    {
        match &self.pending {
            Some(run) => Some(
                PendingControlRequest {
                    channel: run.channels[run.position].clone(),
                    subscribe: run.subscribe,
                },
            ),
            None => None,
        }
    }

    /// Records that an operation on the connection ended with `error`. A
    /// failure of the transport and a frame that does not decode lose the
    /// connection; any other error leaves the session as it is.
    pub fn failed(&mut self, error: &WsError)
        ensures
            final(self)@ == if loses_connection(error@) {
                old(self)@.connection_lost()
            } else {
                old(self)@
            },
    {
        match error {
            WsError::Tungstenite(_) => self.connection_lost(),
            WsError::Serde(_) => self.connection_lost(),
            _ => {},
        }
    }

    /// Gives up the request in progress, if there is one: its confirmation
    /// is no longer waited for. What the client wants stays as the request
    /// left it.
    pub fn abandon_request(&mut self)
        ensures
            final(self)@ == (SessionView { pending: None, ..old(self)@ }),
    {
        self.pending = None;
    }

    /// Whether a request awaits its confirmation.
    pub fn is_awaiting_confirmation(&self) -> (awaiting: bool)
        ensures
            awaiting == (self@.pending is Some),
    {
        self.pending.is_some()
    }
}

} // verus!
