//! What can go wrong in a session.

use vstd::prelude::*;
use vstd::std_specs::convert::FromSpecImpl;
use crate::ws::models::{ChannelView, WsChannel, WsResponse};

verus! {

/// `tungstenite::Error`: why the transport failed. Carried through unread.
#[verifier::external_type_specification]
#[verifier::external_body]
pub struct ExTransportError(tokio_tungstenite::tungstenite::Error);

/// `serde_json::Error`: why a frame's text was not a frame. Carried through
/// unread.
#[verifier::external_type_specification]
#[verifier::external_body]
pub struct ExJsonError(serde_json::Error);

/// `std::time::SystemTimeError`: the system clock reads earlier than the Unix
/// epoch. Carried through unread.
#[verifier::external_type_specification]
#[verifier::external_body]
pub struct ExSystemTimeError(std::time::SystemTimeError);

/// Every error of the streaming interface is a value of this type.
#[derive(Debug)]
pub enum WsError {
    /// An order book kept from the payloads disagrees with the integrity tag
    /// of the latest one. Raised by whoever keeps the book.
    IncorrectChecksum,
    /// An order-book update arrived before any snapshot. Raised by whoever
    /// keeps the book.
    MissingPartial,
    /// The channel was to be unsubscribed but is not among the subscriptions.
    NotSubscribedToThisChannel(WsChannel),
    /// The exchange did not confirm a request within the frames allowed.
    MissingSubscriptionConfirmation,
    /// An account channel was asked for on a session that did not sign in.
    SocketNotAuthenticated,
    /// The exchange answered with this error frame.
    Rejected(WsResponse),
    /// The transport failed.
    Tungstenite(tokio_tungstenite::tungstenite::Error),
    /// A frame could not be decoded.
    Serde(serde_json::Error),
    /// The system clock could not be read as a time since the Unix epoch.
    SystemTime(std::time::SystemTimeError),
}

/// An error as a mathematical value: the channel it names by its view, the
/// outside errors as they are.
pub enum WsErrorView {
    IncorrectChecksum,
    MissingPartial,
    NotSubscribedToThisChannel(ChannelView),
    MissingSubscriptionConfirmation,
    SocketNotAuthenticated,
    Rejected(WsResponse),
    Tungstenite(tokio_tungstenite::tungstenite::Error),
    Serde(serde_json::Error),
    SystemTime(std::time::SystemTimeError),
}

impl View for WsError {
    type V = WsErrorView;

    open spec fn view(&self) -> WsErrorView {
        match self {
            WsError::IncorrectChecksum => WsErrorView::IncorrectChecksum,
            WsError::MissingPartial => WsErrorView::MissingPartial,
            WsError::NotSubscribedToThisChannel(channel) => WsErrorView::NotSubscribedToThisChannel(
                channel@,
            ),
            WsError::MissingSubscriptionConfirmation => WsErrorView::MissingSubscriptionConfirmation,
            WsError::SocketNotAuthenticated => WsErrorView::SocketNotAuthenticated,
            WsError::Rejected(response) => WsErrorView::Rejected(*response),
            WsError::Tungstenite(error) => WsErrorView::Tungstenite(*error),
            WsError::Serde(error) => WsErrorView::Serde(*error),
            WsError::SystemTime(error) => WsErrorView::SystemTime(*error),
        }
    }
}

impl From<tokio_tungstenite::tungstenite::Error> for WsError {
    fn from(error: tokio_tungstenite::tungstenite::Error) -> (wrapped: WsError) {
        WsError::Tungstenite(error)
    }
}

impl FromSpecImpl<tokio_tungstenite::tungstenite::Error> for WsError {
    open spec fn obeys_from_spec() -> bool {
        true
    }

    open spec fn from_spec(error: tokio_tungstenite::tungstenite::Error) -> WsError {
        WsError::Tungstenite(error)
    }
}

impl From<serde_json::Error> for WsError {
    fn from(error: serde_json::Error) -> (wrapped: WsError) {
        WsError::Serde(error)
    }
}

impl FromSpecImpl<serde_json::Error> for WsError {
    open spec fn obeys_from_spec() -> bool {
        true
    }

    open spec fn from_spec(error: serde_json::Error) -> WsError {
        WsError::Serde(error)
    }
}

impl From<std::time::SystemTimeError> for WsError {
    fn from(error: std::time::SystemTimeError) -> (wrapped: WsError) {
        WsError::SystemTime(error)
    }
}

impl FromSpecImpl<std::time::SystemTimeError> for WsError {
    open spec fn obeys_from_spec() -> bool {
        true
    }

    open spec fn from_spec(error: std::time::SystemTimeError) -> WsError {
        WsError::SystemTime(error)
    }
}

} // verus!
