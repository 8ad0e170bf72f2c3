//! The channels a client can ask for and the frames the exchange sends back.

use vstd::prelude::*;
use vstd::std_specs::cmp::PartialEqSpecImpl;
use crate::common::{clone_optional, Coin, Id, OrderInfo, Side, Symbol, TradeInfo};

verus! {

/// A feed that a client can subscribe to. `Fills` and `Orders` carry account
/// data and are served to signed-in sessions only.
#[derive(Debug)]
pub enum WsChannel {
    Orderbook(Symbol),
    Trades(Symbol),
    Ticker(Symbol),
    Fills,
    Orders,
}

/// A channel as a mathematical value: its kind and the characters of its
/// market name.
pub enum ChannelView {
    Orderbook(Seq<char>),
    Trades(Seq<char>),
    Ticker(Seq<char>),
    Fills,
    Orders,
}

impl ChannelView {
    /// Whether the channel carries account data.
    pub open spec fn is_private(self) -> bool {
        self is Fills || self is Orders
    }

    /// The channel's name on the wire.
    pub open spec fn name(self) -> Seq<char> {
        match self {
            ChannelView::Orderbook(_) => "orderbook"@,
            ChannelView::Trades(_) => "trades"@,
            ChannelView::Ticker(_) => "ticker"@,
            ChannelView::Fills => "fills"@,
            ChannelView::Orders => "orders"@,
        }
    }

    /// The market the channel is about; empty for the account channels.
    pub open spec fn market(self) -> Seq<char> {
        match self {
            ChannelView::Orderbook(symbol) => symbol,
            ChannelView::Trades(symbol) => symbol,
            ChannelView::Ticker(symbol) => symbol,
            ChannelView::Fills => Seq::empty(),
            ChannelView::Orders => Seq::empty(),
        }
    }
}

impl View for WsChannel {
    type V = ChannelView;

    open spec fn view(&self) -> ChannelView {
        match self {
            WsChannel::Orderbook(symbol) => ChannelView::Orderbook(symbol@),
            WsChannel::Trades(symbol) => ChannelView::Trades(symbol@),
            WsChannel::Ticker(symbol) => ChannelView::Ticker(symbol@),
            WsChannel::Fills => ChannelView::Fills,
            WsChannel::Orders => ChannelView::Orders,
        }
    }
}

impl Clone for WsChannel {
    fn clone(&self) -> (copy: WsChannel)
        ensures
            copy == *self,
    {
        match self {
            WsChannel::Orderbook(symbol) => WsChannel::Orderbook(symbol.clone()),
            WsChannel::Trades(symbol) => WsChannel::Trades(symbol.clone()),
            WsChannel::Ticker(symbol) => WsChannel::Ticker(symbol.clone()),
            WsChannel::Fills => WsChannel::Fills,
            WsChannel::Orders => WsChannel::Orders,
        }
    }
}

impl PartialEq for WsChannel {
    /// Two channels are equal when they are of one kind and name one market.
    fn eq(&self, other: &WsChannel) -> (equal: bool) {
        match (self, other) {
            (WsChannel::Orderbook(a), WsChannel::Orderbook(b)) => *a == *b,
            (WsChannel::Trades(a), WsChannel::Trades(b)) => *a == *b,
            (WsChannel::Ticker(a), WsChannel::Ticker(b)) => *a == *b,
            (WsChannel::Fills, WsChannel::Fills) => true,
            (WsChannel::Orders, WsChannel::Orders) => true,
            _ => false,
        }
    }
}

impl PartialEqSpecImpl for WsChannel {
    open spec fn obeys_eq_spec() -> bool {
        true
    }

    open spec fn eq_spec(&self, other: &WsChannel) -> bool {
        self@ == other@
    }
}

impl Eq for WsChannel {

}

impl WsChannel {
    /// Whether the channel is served to signed-in sessions only.
    pub fn is_private(&self) -> (private: bool)
        ensures
            private == self@.is_private(),
    {
        match self {
            WsChannel::Fills => true,
            WsChannel::Orders => true,
            _ => false,
        }
    }

    /// The channel's name on the wire.
    pub fn name(&self) -> (name: &'static str)
        ensures
            name@ == self@.name(),
    {
        match self {
            WsChannel::Orderbook(_) => "orderbook",
            WsChannel::Trades(_) => "trades",
            WsChannel::Ticker(_) => "ticker",
            WsChannel::Fills => "fills",
            WsChannel::Orders => "orders",
        }
    }

    /// The market the channel is about; empty for the account channels.
    pub fn market(&self) -> (market: &str)
        ensures
            market@ == self@.market(),
    {
        proof {
            reveal_strlit("");
        }
        match self {
            WsChannel::Orderbook(symbol) => symbol.as_str(),
            WsChannel::Trades(symbol) => symbol.as_str(),
            WsChannel::Ticker(symbol) => symbol.as_str(),
            WsChannel::Fills => "",
            WsChannel::Orders => "",
        }
    }
}

/// What kind of frame the exchange sent. The tag steers the flow of a
/// session; it does not say what the payload is.
#[derive(Clone, Copy, Debug, PartialEq, Eq, Structural)]
pub enum WsMessageType {
    Subscribed,
    Unsubscribed,
    Update,
    Error,
    Partial,
    Pong,
    Info,
}

/// Whether an order-book payload replaces the book or amends it.
#[derive(Clone, Copy, Debug, PartialEq, Eq, Structural)]
pub enum WsOrderbookAction {
    /// Initial snapshot of the order book.
    Partial,
    /// Changes to the order book since the last payload.
    Update,
}

#[derive(Clone, Copy, Debug, PartialEq, Eq, Structural)]
pub enum Liquidity {
    Maker,
    Taker,
}

/// The integrity tag of an order-book payload. The connector hands it on
/// unchecked; whoever keeps the book checks its state against it.
pub type Checksum = u32;

/// Best bid and ask of a market.
#[derive(Clone, Copy, Debug)]
pub struct TickerInfo {
    pub bid: rust_decimal::Decimal,
    pub ask: rust_decimal::Decimal,
    pub bid_size: rust_decimal::Decimal,
    pub ask_size: rust_decimal::Decimal,
    pub last: rust_decimal::Decimal,
    /// In UTC.
    pub time: chrono::NaiveDateTime,
}

/// One fill of one of the account's orders.
#[derive(Debug)]
pub struct FillInfo {
    pub id: Id,
    pub market: Option<Symbol>,
    pub future: Option<Symbol>,
    pub base_currency: Option<Coin>,
    pub quote_currency: Option<Coin>,
    /// For instance `order`.
    pub type_: String,
    pub side: Side,
    pub price: rust_decimal::Decimal,
    pub size: rust_decimal::Decimal,
    pub order_id: Option<Id>,
    pub trade_id: Option<Id>,
    /// In UTC.
    pub time: chrono::NaiveDateTime,
    pub fee: rust_decimal::Decimal,
    pub fee_rate: rust_decimal::Decimal,
    pub fee_currency: Coin,
    pub liquidity: Liquidity,
}

impl Clone for FillInfo {
    fn clone(&self) -> (copy: FillInfo)
        ensures
            copy == *self,
    {
        FillInfo {
            id: self.id,
            market: clone_optional(&self.market),
            future: clone_optional(&self.future),
            base_currency: clone_optional(&self.base_currency),
            quote_currency: clone_optional(&self.quote_currency),
            type_: self.type_.clone(),
            side: self.side,
            price: self.price,
            size: self.size,
            order_id: self.order_id,
            trade_id: self.trade_id,
            time: self.time,
            fee: self.fee,
            fee_rate: self.fee_rate,
            fee_currency: self.fee_currency.clone(),
            liquidity: self.liquidity,
        }
    }
}

/// A snapshot of an order book or a change to one: price and size pairs in
/// the order received.
#[derive(Debug)]
pub struct OrderbookInfo {
    pub action: WsOrderbookAction,
    pub bids: Vec<(rust_decimal::Decimal, rust_decimal::Decimal)>,
    pub asks: Vec<(rust_decimal::Decimal, rust_decimal::Decimal)>,
    pub checksum: Checksum,
    /// In UTC.
    pub time: chrono::NaiveDateTime,
}

/// A copy of a list of price and size pairs.
fn clone_levels(levels: &Vec<(rust_decimal::Decimal, rust_decimal::Decimal)>) -> (copy: Vec<
    (rust_decimal::Decimal, rust_decimal::Decimal),
>)
    ensures
        copy@ == levels@,
{
    let mut copy: Vec<(rust_decimal::Decimal, rust_decimal::Decimal)> = Vec::new();
    let mut i: usize = 0;
    while i < levels.len()
        invariant
            i <= levels@.len(),
            copy@ == levels@.take(i as int),
        decreases levels@.len() - i,
    {
        copy.push(levels[i]);
        i += 1;
    }
    copy
}

/// A copy of a list of trades.
fn clone_trades(trades: &Vec<TradeInfo>) -> (copy: Vec<TradeInfo>)
    ensures
        copy@ == trades@,
{
    let mut copy: Vec<TradeInfo> = Vec::new();
    let mut i: usize = 0;
    while i < trades.len()
        invariant
            i <= trades@.len(),
            copy@ == trades@.take(i as int),
        decreases trades@.len() - i,
    {
        copy.push(trades[i]);
        i += 1;
    }
    copy
}

impl OrderbookInfo {
    /// Whether two payloads hold the same book: field by field, the lists
    /// level by level.
    pub open spec fn same_as(self, other: OrderbookInfo) -> bool {
        &&& self.action == other.action
        &&& self.bids@ == other.bids@
        &&& self.asks@ == other.asks@
        &&& self.checksum == other.checksum
        &&& self.time == other.time
    }
}

impl Clone for OrderbookInfo {
    fn clone(&self) -> (copy: OrderbookInfo)
        ensures
            copy.same_as(*self),
    {
        OrderbookInfo {
            action: self.action,
            bids: clone_levels(&self.bids),
            asks: clone_levels(&self.asks),
            checksum: self.checksum,
            time: self.time,
        }
    }
}

/// The payload of a frame.
#[derive(Debug)]
pub enum WsResponseData {
    Ticker(TickerInfo),
    Trades(Vec<TradeInfo>),
    OrderbookData(OrderbookInfo),
    Fill(FillInfo),
    Order(OrderInfo),
}

impl WsResponseData {
    /// Whether two payloads hold the same data: of one kind, and the same
    /// field by field, lists item by item.
    pub open spec fn same_as(self, other: WsResponseData) -> bool {
        match (self, other) {
            (WsResponseData::Ticker(a), WsResponseData::Ticker(b)) => a == b,
            (WsResponseData::Trades(a), WsResponseData::Trades(b)) => a@ == b@,
            (WsResponseData::OrderbookData(a), WsResponseData::OrderbookData(b)) => a.same_as(b),
            (WsResponseData::Fill(a), WsResponseData::Fill(b)) => a == b,
            (WsResponseData::Order(a), WsResponseData::Order(b)) => a == b,
            _ => false,
        }
    }
}

impl Clone for WsResponseData {
    fn clone(&self) -> (copy: WsResponseData)
        ensures
            copy.same_as(*self),
    {
        match self {
            WsResponseData::Ticker(ticker) => WsResponseData::Ticker(*ticker),
            WsResponseData::Trades(trades) => WsResponseData::Trades(clone_trades(trades)),
            WsResponseData::OrderbookData(orderbook) => WsResponseData::OrderbookData(
                orderbook.clone(),
            ),
            WsResponseData::Fill(fill) => WsResponseData::Fill(fill.clone()),
            WsResponseData::Order(order) => WsResponseData::Order(order.clone()),
        }
    }
}

/// One decoded inbound frame.
#[derive(Debug)]
pub struct WsResponse {
    pub market: Option<Symbol>,
    pub type_: WsMessageType,
    pub data: Option<WsResponseData>,
}

impl WsResponse {
    /// Whether two frames are the same: market, tag and payload.
    pub open spec fn same_as(self, other: WsResponse) -> bool {
        &&& self.market == other.market
        &&& self.type_ == other.type_
        &&& match (self.data, other.data) {
            (Some(a), Some(b)) => a.same_as(b),
            (None, None) => true,
            _ => false,
        }
    }
}

impl Clone for WsResponse {
    fn clone(&self) -> (copy: WsResponse)
        ensures
            copy.same_as(*self),
    {
        WsResponse {
            market: clone_optional(&self.market),
            type_: self.type_,
            data: match &self.data {
                Some(data) => Some(data.clone()),
                None => None,
            },
        }
    }
}

/// One item of market or account data, as a session hands it to its reader.
#[derive(Debug)]
pub enum EventData {
    Ticker(TickerInfo),
    Trade(TradeInfo),
    OrderbookData(OrderbookInfo),
    Fill(FillInfo),
    Order(OrderInfo),
}

impl EventData {
    /// Whether two items hold the same data: of one kind, and the same field
    /// by field.
    pub open spec fn same_as(self, other: EventData) -> bool {
        match (self, other) {
            (EventData::Ticker(a), EventData::Ticker(b)) => a == b,
            (EventData::Trade(a), EventData::Trade(b)) => a == b,
            (EventData::OrderbookData(a), EventData::OrderbookData(b)) => a.same_as(b),
            (EventData::Fill(a), EventData::Fill(b)) => a == b,
            (EventData::Order(a), EventData::Order(b)) => a == b,
            _ => false,
        }
    }
}

impl Clone for EventData {
    fn clone(&self) -> (copy: EventData)
        ensures
            copy.same_as(*self),
    {
        match self {
            EventData::Ticker(ticker) => EventData::Ticker(*ticker),
            EventData::Trade(trade) => EventData::Trade(*trade),
            EventData::OrderbookData(orderbook) => EventData::OrderbookData(orderbook.clone()),
            EventData::Fill(fill) => EventData::Fill(fill.clone()),
            EventData::Order(order) => EventData::Order(order.clone()),
        }
    }
}

} // verus!
