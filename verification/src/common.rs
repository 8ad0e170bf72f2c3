//! Value types that the exchange's REST and streaming interfaces share.

use vstd::prelude::*;

verus! {

/// `rust_decimal::Decimal`, a 96-bit decimal number. The connector carries
/// prices and sizes through untouched and never computes on them.
#[verifier::external_type_specification]
#[verifier::external_body]
pub struct ExDecimal(rust_decimal::Decimal);

/// `chrono::NaiveDateTime`, a calendar date and a time of day. The exchange
/// reports times in UTC; the connector carries them through untouched.
#[verifier::external_type_specification]
#[verifier::external_body]
pub struct ExNaiveDateTime(chrono::NaiveDateTime);

/// A market name such as `BTC/USD` or `BTC-PERP`.
pub type Symbol = String;

/// A currency code such as `USD`.
pub type Coin = String;

/// An identifier that the exchange assigned.
pub type Id = u64;

#[derive(Clone, Copy, Debug, PartialEq, Eq, Structural)]
pub enum Side {
    Buy,
    Sell,
}

#[derive(Clone, Copy, Debug, PartialEq, Eq, Structural)]
pub enum OrderType {
    Market,
    Limit,
}

#[derive(Clone, Copy, Debug, PartialEq, Eq, Structural)]
pub enum OrderStatus {
    /// Accepted but not processed yet.
    New,
    Open,
    /// Filled or cancelled.
    Closed,
}

/// One public trade.
#[derive(Clone, Copy, Debug)]
pub struct TradeInfo {
    pub id: Id,
    pub price: rust_decimal::Decimal,
    pub size: rust_decimal::Decimal,
    pub side: Side,
    pub liquidation: bool,
    /// In UTC.
    pub time: chrono::NaiveDateTime,
}

/// One of the account's orders.
#[derive(Debug)]
pub struct OrderInfo {
    pub id: Id,
    pub market: Symbol,
    pub future: Option<Symbol>,
    pub type_: OrderType,
    pub side: Side,
    /// `None` for market orders.
    pub price: Option<rust_decimal::Decimal>,
    pub size: rust_decimal::Decimal,
    pub reduce_only: bool,
    pub ioc: bool,
    pub post_only: bool,
    pub status: OrderStatus,
    pub filled_size: rust_decimal::Decimal,
    pub remaining_size: rust_decimal::Decimal,
    pub avg_fill_price: Option<rust_decimal::Decimal>,
    pub client_id: Option<String>,
    /// In UTC.
    pub created_at: chrono::NaiveDateTime,
}

/// A copy of an optional string.
pub fn clone_optional(text: &Option<String>) -> (copy: Option<String>)
    ensures
        copy == *text,
{
    match text {
        Some(text) => Some(text.clone()),
        None => None,
    }
}

impl Clone for OrderInfo {
    fn clone(&self) -> (copy: OrderInfo)
        ensures
            copy == *self,
    {
        OrderInfo {
            id: self.id,
            market: self.market.clone(),
            future: clone_optional(&self.future),
            type_: self.type_,
            side: self.side,
            price: self.price,
            size: self.size,
            reduce_only: self.reduce_only,
            ioc: self.ioc,
            post_only: self.post_only,
            status: self.status,
            filled_size: self.filled_size,
            remaining_size: self.remaining_size,
            avg_fill_price: self.avg_fill_price,
            client_id: clone_optional(&self.client_id),
            created_at: self.created_at,
        }
    }
}

} // verus!
