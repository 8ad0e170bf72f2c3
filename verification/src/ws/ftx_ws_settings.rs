//! Where the exchange listens.

use vstd::prelude::*;
use vstd::string::StringExecFns;

verus! {

/// The settings of a connection to the exchange. There is nothing to choose:
/// the address is fixed.
pub struct FtxWsSetting {}

impl FtxWsSetting {
    pub fn new() -> (setting: FtxWsSetting)
        ensures
            setting == (FtxWsSetting {  }),
    {
        FtxWsSetting {  }
    }

    /// The address of the exchange's streaming endpoint.
    pub fn get_url(&self) -> (url: String)
        ensures
            url@ == "wss://ftx.com/ws"@,
    {
        String::from_str("wss://ftx.com/ws")
    }
}

} // verus!
