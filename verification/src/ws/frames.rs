//! The control frames a client writes: compact JSON objects with their keys
//! in alphabetical order.
//!
//! The frames' layout is laid down here. How a string becomes a JSON literal
//! is `serde_json`'s business: the functions that end in `_with` take the
//! literals ready-made, the `encode` methods have them made.

use vstd::prelude::*;
use vstd::string::StringExecFns;
use crate::codec::{decimal_string, decimal_text, json_string, json_string_text};
use crate::ftx_auth_settings::signature;
use crate::ws::models::{ChannelView, WsChannel};

verus! {

/// The keepalive frame.
pub open spec fn ping_text() -> Seq<char> {
    "{\"op\":\"ping\"}"@
}

/// The name of the operation that asks for a channel or gives it up.
pub open spec fn op_name(subscribe: bool) -> Seq<char> {
    if subscribe {
        "subscribe"@
    } else {
        "unsubscribe"@
    }
}

/// The frame that asks for `channel` or gives it up, given the JSON literal of
/// the channel's market.
pub open spec fn control_text(
    subscribe: bool,
    channel: ChannelView,
    market_literal: Seq<char>,
) -> Seq<char> {
    "{\"channel\":\""@ + channel.name() + "\",\"market\":"@ + market_literal + ",\"op\":\""@
        + op_name(subscribe) + "\"}"@
}

/// The frame that signs a session in, given the JSON literals of the key, of
/// the signature and of the subaccount, and the time in milliseconds.
pub open spec fn login_text(
    key_literal: Seq<char>,
    sign_literal: Seq<char>,
    subaccount_literal: Seq<char>,
    time: u64,
) -> Seq<char> {
    "{\"args\":{\"key\":"@ + key_literal + ",\"sign\":"@ + sign_literal + ",\"subaccount\":"@
        + subaccount_literal + ",\"time\":"@ + decimal_text(time as nat)
        + "},\"op\":\"login\"}"@
}

/// The JSON literal of an optional string: `null` where there is none.
pub open spec fn optional_string_text(text: Option<Seq<char>>) -> Seq<char> {
    match text {
        Some(text) => json_string_text(text),
        None => "null"@,
    }
}

/// Writes the keepalive frame.
pub fn ping_frame() -> (frame: String)
    ensures
        frame@ == ping_text(),
{
    String::from_str("{\"op\":\"ping\"}")
}

/// Writes the frame that asks for a channel or gives it up, from the channel
/// and the JSON literal of its market.
pub fn control_frame_with(subscribe: bool, channel: &WsChannel, market_literal: &str) -> (frame:
    String)
    ensures
        frame@ == control_text(subscribe, channel@, market_literal@),
{
    let mut frame = String::from_str("{\"channel\":\"");
    frame.append(channel.name());
    frame.append("\",\"market\":");
    frame.append(market_literal);
    frame.append(",\"op\":\"");
    frame.append(if subscribe {
        "subscribe"
    } else {
        "unsubscribe"
    });
    frame.append("\"}");
    frame
}

/// Writes the frame that signs a session in, from the JSON literals of its
/// strings.
pub fn login_frame_with(
    key_literal: &str,
    sign_literal: &str,
    subaccount_literal: &str,
    time: u64,
) -> (frame: String)
    ensures
        frame@ == login_text(key_literal@, sign_literal@, subaccount_literal@, time),
{
    let mut frame = String::from_str("{\"args\":{\"key\":");
    frame.append(key_literal);
    frame.append(",\"sign\":");
    frame.append(sign_literal);
    frame.append(",\"subaccount\":");
    frame.append(subaccount_literal);
    frame.append(",\"time\":");
    let time_text = decimal_string(time as u128);
    frame.append(time_text.as_str());
    frame.append("},\"op\":\"login\"}");
    frame
}

/// A request to subscribe to a channel or to unsubscribe from it: what a
/// session writes and then waits to see confirmed.
#[derive(Debug)]
pub struct PendingControlRequest {
    pub channel: WsChannel,
    /// `true` to subscribe, `false` to unsubscribe.
    pub subscribe: bool,
}

/// A control request as a mathematical value.
pub struct ControlRequestView {
    pub channel: ChannelView,
    pub subscribe: bool,
}

impl View for PendingControlRequest {
    type V = ControlRequestView;

    open spec fn view(&self) -> ControlRequestView {
        ControlRequestView { channel: self.channel@, subscribe: self.subscribe }
    }
}

impl ControlRequestView {
    /// The request's frame.
    pub open spec fn text(self) -> Seq<char> {
        control_text(self.subscribe, self.channel, json_string_text(self.channel.market()))
    }
}

impl PendingControlRequest {
    /// Writes the request's frame.
    pub fn encode(&self) -> (frame: String)
        ensures
            frame@ == self@.text(),
    {
        let market_literal = json_string(self.channel.market());
        control_frame_with(self.subscribe, &self.channel, market_literal.as_str())
    }
}

/// The requests of a list as mathematical values, in the same order.
pub open spec fn request_views(requests: Seq<PendingControlRequest>) -> Seq<ControlRequestView> {
    requests.map_values(|request: PendingControlRequest| request@)
}

/// One request of the given direction for each of `channels`, in the same
/// order.
pub open spec fn requests_for(channels: Seq<ChannelView>, subscribe: bool) -> Seq<
    ControlRequestView,
> {
    channels.map_values(|channel: ChannelView| ControlRequestView { channel, subscribe })
}

/// The request that signs a session in.
#[derive(Debug)]
pub struct LoginRequest {
    pub key: String,
    /// The signature of `websocket_login` at `time`.
    pub sign: String,
    /// Milliseconds since the Unix epoch.
    pub time: u64,
    pub subaccount: Option<String>,
}

/// A login request as a mathematical value.
pub struct LoginRequestView {
    pub key: Seq<char>,
    pub sign: Seq<char>,
    pub time: u64,
    pub subaccount: Option<Seq<char>>,
}

/// The characters of an optional string.
pub open spec fn optional_view(text: Option<String>) -> Option<Seq<char>> {
    match text {
        Some(text) => Some(text@),
        None => None,
    }
}

impl View for LoginRequest {
    type V = LoginRequestView;

    open spec fn view(&self) -> LoginRequestView {
        LoginRequestView {
            key: self.key@,
            sign: self.sign@,
            time: self.time,
            subaccount: optional_view(self.subaccount),
        }
    }
}

/// The method that a login signs.
pub open spec fn login_method() -> Seq<char> {
    "websocket_login"@
}

/// The login request of an account at `time`, in milliseconds since the Unix
/// epoch: it carries the time and the signature of `websocket_login` at that
/// very time.
pub open spec fn login_request(
    key: Seq<char>,
    secret: Seq<char>,
    subaccount: Option<Seq<char>>,
    time: u64,
) -> LoginRequestView {
    LoginRequestView {
        key,
        sign: signature(secret, login_method(), time as u128),
        time,
        subaccount,
    }
}

/// The signature in a login request is the signature of `websocket_login` at
/// the time the request itself carries, under the account's secret, and of
/// nothing else: recomputed from the request's time field and the secret it
/// comes out the same, character for character, whatever the key and the
/// subaccount.
pub proof fn lemma_login_signature(
    key: Seq<char>,
    other_key: Seq<char>,
    secret: Seq<char>,
    subaccount: Option<Seq<char>>,
    other_subaccount: Option<Seq<char>>,
    time: u64,
)
    ensures
        login_request(key, secret, subaccount, time).sign == signature(
            secret,
            login_method(),
            login_request(key, secret, subaccount, time).time as u128,
        ),
        login_request(key, secret, subaccount, time).sign == login_request(
            other_key,
            secret,
            other_subaccount,
            time,
        ).sign,
{
}

impl LoginRequestView {
    /// The request's frame.
    pub open spec fn text(self) -> Seq<char> {
        login_text(
            json_string_text(self.key),
            json_string_text(self.sign),
            optional_string_text(self.subaccount),
            self.time,
        )
    }
}

impl LoginRequest {
    /// Writes the request's frame.
    pub fn encode(&self) -> (frame: String)
        ensures
            frame@ == self@.text(),
    {
        let key_literal = json_string(self.key.as_str());
        let sign_literal = json_string(self.sign.as_str());
        let subaccount_literal = match &self.subaccount {
            Some(subaccount) => json_string(subaccount.as_str()),
            None => String::from_str("null"),
        };
        login_frame_with(
            key_literal.as_str(),
            sign_literal.as_str(),
            subaccount_literal.as_str(),
            self.time,
        )
    }
}

} // verus!
