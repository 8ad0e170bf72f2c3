//! A push-style client without its transport: the driver keeps the
//! connection, tells this client what happened to it and does what the
//! client answers.

use vstd::prelude::*;
use crate::common::Symbol;
use crate::ws::event_handler::WsDataEvent;
use crate::ws::frames::{
    ping_frame, ping_text, request_views, requests_for, PendingControlRequest,
};
use crate::ws::models::{ChannelView, WsChannel, WsMessageType, WsResponse};
use crate::ws::protocol::ConnectionState;
use crate::ws::subscriptions::{
    channel_views, insert_all, insert_channel, lemma_insert_all_no_duplicates,
    lemma_insert_all_push,
};

verus! {

/// What the driver does with a text frame.
#[derive(Debug)]
pub enum ClientAction {
    /// Nothing.
    Ignore,
    /// Note that the exchange confirmed a subscription for this market.
    Subscribed(Option<Symbol>),
    /// Drop the connection: the frame's text was not a frame.
    Malformed(serde_json::Error),
    /// Drop the connection: the exchange sent an error frame.
    Rejected(WsResponse),
    /// Hand this event to the consumer.
    Deliver(WsDataEvent),
}

/// A text frame that does not decode, and a frame tagged as an error, end
/// the connection. A confirmed subscription is noted. A snapshot or an update
/// is delivered if it has a payload. Everything else is ignored: a confirmed
/// unsubscription, a keepalive answer, a notice, a snapshot or an update
/// without payload.
pub open spec fn client_action(frame: Result<WsResponse, serde_json::Error>) -> ClientAction {
    match frame {
        Err(error) => ClientAction::Malformed(error),
        Ok(response) => match response.type_ {
            WsMessageType::Subscribed => ClientAction::Subscribed(response.market),
            WsMessageType::Unsubscribed => ClientAction::Ignore,
            WsMessageType::Pong => ClientAction::Ignore,
            WsMessageType::Info => ClientAction::Ignore,
            WsMessageType::Error => ClientAction::Rejected(response),
            WsMessageType::Partial | WsMessageType::Update => match response.data {
                Some(data) => ClientAction::Deliver(WsDataEvent { data, market: response.market }),
                None => ClientAction::Ignore,
            },
        },
    }
}

/// A keepalive answer is never handed to the consumer, whatever it carries.
pub proof fn lemma_client_ignores_pong(response: WsResponse)
    requires
        response.type_ is Pong,
    ensures
        client_action(Ok(response)) == ClientAction::Ignore,
{
}

impl ClientAction {
    /// Whether the action ends the connection.
    pub fn disconnects(&self) -> (disconnects: bool)
        ensures
            disconnects == (self is Malformed || self is Rejected),
    {
        match self {
            ClientAction::Malformed(_) => true,
            ClientAction::Rejected(_) => true,
            _ => false,
        }
    }
}

/// A client that subscribes to a fixed list of channels on every connection
/// and hands every data frame to a consumer.
pub struct FtxWsClient {
    channels: Vec<WsChannel>,
    is_started: bool,
    state: ConnectionState,
}

/// A client as a mathematical value.
pub struct ClientView {
    /// The channels the client wants, oldest first.
    pub desired: Seq<ChannelView>,
    pub is_started: bool,
    pub state: ConnectionState,
}

impl View for FtxWsClient {
    type V = ClientView;

    closed spec fn view(&self) -> ClientView {
        ClientView {
            desired: channel_views(self.channels@),
            is_started: self.is_started,
            state: self.state,
        }
    }
}

impl FtxWsClient {
    /// A client that wants `channels`; a channel given twice counts once.
    pub fn new(channels: Vec<WsChannel>) -> (client: FtxWsClient)
        ensures
            client@.desired == insert_all(Seq::empty(), channel_views(channels@)),
            client@.desired.no_duplicates(),
            !client@.is_started,
            client@.state is Disconnected,
    {
        let ghost views = channel_views(channels@);
        let mut desired: Vec<WsChannel> = Vec::new();
        let mut i: usize = 0;
        while i < channels.len()
            invariant
                i <= channels@.len(),
                views == channel_views(channels@),
                channel_views(desired@) == insert_all(Seq::empty(), views.take(i as int)),
            decreases channels@.len() - i,
        {
            insert_channel(&mut desired, &channels[i]);
            proof {
                lemma_insert_all_push(Seq::empty(), views.take(i as int), views[i as int]);
                assert(views.take(i + 1) =~= views.take(i as int).push(views[i as int]));
            }
            i += 1;
        }
        proof {
            assert(views.take(i as int) =~= views);
            lemma_insert_all_no_duplicates(Seq::empty(), views);
        }
        FtxWsClient { channels: desired, is_started: false, state: ConnectionState::Disconnected }
    }

    /// One request of the given direction for each of `channels`, in the same
    /// order.
    pub fn subscribe_or_unsubscribe(channels: &[WsChannel], subscribe: bool) -> (requests: Vec<
        PendingControlRequest,
    >)
        ensures
            request_views(requests@) == requests_for(channel_views(channels@), subscribe),
    {
        let mut requests: Vec<PendingControlRequest> = Vec::new();
        let mut i: usize = 0;
        while i < channels.len()
            invariant
                i <= channels@.len(),
                requests@.len() == i,
                request_views(requests@) == requests_for(
                    channel_views(channels@),
                    subscribe,
                ).take(i as int),
            decreases channels@.len() - i,
        {
            let ghost before = requests@;
            requests.push(PendingControlRequest { channel: channels[i].clone(), subscribe });
            proof {
                let wanted = requests_for(channel_views(channels@), subscribe);
                assert forall|j: int| 0 <= j <= i implies request_views(requests@)[j]
                    == wanted[j] by {
                    if j < i {
                        assert(request_views(before)[j] == wanted.take(i as int)[j]);
                    }
                }
            }
            i += 1;
        }
        assert(requests_for(channel_views(channels@), subscribe).take(i as int)
            =~= requests_for(channel_views(channels@), subscribe));
        requests
    }

    /// Starts the client, once: the first call answers with the keepalive
    /// frame that the transport is to write at every interval, every later
    /// call with `None`.
    pub fn start(&mut self) -> (ping: Option<String>)
        ensures
            old(self)@.is_started ==> ping is None && final(self)@ == old(self)@,
            !old(self)@.is_started ==> (ping matches Some(frame) && frame@ == ping_text()),
            !old(self)@.is_started ==> final(self)@ == (ClientView {
                is_started: true,
                state: ConnectionState::Connecting,
                ..old(self)@
            }),
    {
        if self.is_started {
            None
        } else {
            self.is_started = true;
            self.state = ConnectionState::Connecting;
            Some(ping_frame())
        }
    }

    /// The transport is open: the client is ready, and every channel it wants
    /// is to be subscribed to, oldest first, before anything else is done on
    /// the connection.
    pub fn on_connected(&mut self) -> (requests: Vec<PendingControlRequest>)
        ensures
            final(self)@ == (ClientView { state: ConnectionState::Ready, ..old(self)@ }),
            request_views(requests@) == requests_for(old(self)@.desired, true),
    {
        self.state = ConnectionState::Ready;
        FtxWsClient::subscribe_or_unsubscribe(self.channels.as_slice(), true)
    }

    /// The transport is gone. What the client wants stays.
    pub fn on_disconnected(&mut self)
        ensures
            final(self)@ == (ClientView { state: ConnectionState::Disconnected, ..old(self)@ }),
    {
        self.state = ConnectionState::Disconnected;
    }

    /// Says what to do with a text frame, given what it decoded to or why it
    /// did not decode.
    pub fn on_data(&self, frame: Result<WsResponse, serde_json::Error>) -> (action: ClientAction)
        ensures
            action == client_action(frame),
    {
        match frame {
            Err(error) => ClientAction::Malformed(error),
            Ok(response) => match response.type_ {
                WsMessageType::Subscribed => ClientAction::Subscribed(response.market),
                WsMessageType::Unsubscribed | WsMessageType::Pong | WsMessageType::Info => {
                    ClientAction::Ignore
                },
                WsMessageType::Error => ClientAction::Rejected(response),
                WsMessageType::Partial | WsMessageType::Update => {
                    if response.data.is_some() {
                        ClientAction::Deliver(WsDataEvent::new(response))
                    } else {
                        ClientAction::Ignore
                    }
                },
            },
        }
    }

    /// The channels the client wants, oldest first.
    pub fn channels(&self) -> (channels: &[WsChannel])
        ensures
            channel_views(channels@) == self@.desired,
    {
        self.channels.as_slice()
    }

    pub fn is_started(&self) -> (started: bool)
        ensures
            started == self@.is_started,
    {
        self.is_started
    }

    pub fn state(&self) -> (state: ConnectionState)
        ensures
            state == self@.state,
    {
        self.state
    }
}

} // verus!
