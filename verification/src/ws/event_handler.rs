//! What a push-style client hands to its consumer.

use vstd::prelude::*;
use crate::common::{clone_optional, Symbol};
use crate::ws::models::{WsResponse, WsResponseData};

verus! {

/// The payload of one data frame and the market the frame named.
#[derive(Debug)]
pub struct WsDataEvent {
    pub data: WsResponseData,
    pub market: Option<Symbol>,
}

impl Clone for WsDataEvent {
    fn clone(&self) -> (copy: WsDataEvent)
        ensures
            copy.data.same_as(self.data),
            copy.market == self.market,
    {
        WsDataEvent { data: self.data.clone(), market: clone_optional(&self.market) }
    }
}

impl WsDataEvent {
    /// The event of a frame that has a payload.
    pub fn new(resp: WsResponse) -> (event: WsDataEvent)
        requires
            resp.data is Some,
        ensures
            Some(event.data) == resp.data,
            event.market == resp.market,
    {
        WsDataEvent { data: resp.data.unwrap(), market: resp.market }
    }
}

} // verus!
