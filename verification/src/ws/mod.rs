//! The streaming interface: channels, frames, sessions.

pub mod error;
pub mod event_handler;
pub mod frames;
pub mod ftx_websocket;
pub mod ftx_ws_client;
pub mod ftx_ws_settings;
pub mod models;
pub mod protocol;
pub mod subscriptions;

pub use crate::common::{Coin, Id, OrderInfo, OrderStatus, OrderType, Side, Symbol, TradeInfo};
pub use error::WsError;
pub use event_handler::WsDataEvent;
pub use frames::{LoginRequest, PendingControlRequest};
pub use ftx_websocket::FtxWebsocket;
pub use ftx_ws_client::{ClientAction, FtxWsClient};
pub use ftx_ws_settings::FtxWsSetting;
pub use models::{
    Checksum, EventData, FillInfo, Liquidity, OrderbookInfo, TickerInfo, WsChannel, WsMessageType,
    WsOrderbookAction, WsResponse, WsResponseData,
};
pub use protocol::{ConnectionState, ControlStep, Delivery, Event, Inbound, ReadStep};
