//! API credentials and the request signature derived from them.

use vstd::prelude::*;
use vstd::string::StringExecFns;
use vstd::utf8::encode_utf8;
use crate::codec::{
    decimal_string, decimal_text, hex_encode, hex_text, hmac_sha256, hmac_sha256_mac,
    is_lower_hex_digit, lemma_hex_text_shape,
};

verus! {

/// `std::time::SystemTime`: a reading of the system clock.
#[verifier::external_type_specification]
#[verifier::external_body]
pub struct ExSystemTime(std::time::SystemTime);

/// `SystemTime::now`: the current reading of the system clock. Nothing is
/// claimed of it.
pub assume_specification[ std::time::SystemTime::now ]() -> (now: std::time::SystemTime)
;

/// `Duration::as_millis`: the whole milliseconds in a duration. Nothing is
/// claimed of the number.
pub assume_specification[ std::time::Duration::as_millis ](duration: &std::time::Duration) -> (millis: u128)
;

/// `SystemTime::duration_since` against `UNIX_EPOCH`: how long after the
/// epoch `time` lies, or an error where it lies before. Nothing is claimed of
/// which.
#[verifier::external_body]
fn since_unix_epoch(time: &std::time::SystemTime) -> (elapsed: Result<
    std::time::Duration,
    std::time::SystemTimeError,
>) {
    time.duration_since(std::time::UNIX_EPOCH)
}

/// The text that is signed for a request: the timestamp as a decimal numeral,
/// then the method.
pub open spec fn sign_payload(method: Seq<char>, timestamp: u128) -> Seq<char> {
    decimal_text(timestamp as nat) + method
}

/// The signature of a request: lowercase hex of the HMAC-SHA256 tag that the
/// secret gives to the UTF-8 bytes of `sign_payload`.
pub open spec fn signature(secret: Seq<char>, method: Seq<char>, timestamp: u128) -> Seq<char> {
    hex_text(hmac_sha256_mac(encode_utf8(sign_payload(method, timestamp)), encode_utf8(secret)))
}

/// Credentials of one account.
pub struct FtxAuthSettings {
    pub api_key: String,
    pub api_secret: String,
    pub subaccount: Option<String>,
}

impl FtxAuthSettings {
    /// Signs `method` at `timestamp` (milliseconds since the Unix epoch) with
    /// the account's secret. The signature has 64 characters, all of them
    /// lowercase hex digits.
    pub fn generate_sign(&self, method: &str, timestamp: u128) -> (sign: String)
        ensures
            sign@ == signature(self.api_secret@, method@, timestamp),
            sign@.len() == 64,
            forall|i: int| 0 <= i < sign@.len() ==> is_lower_hex_digit(#[trigger] sign@[i]),
    {
        let mut sign_payload = decimal_string(timestamp);
        sign_payload.append(method);
        let mac = hmac_sha256(sign_payload.as_str().as_bytes(), self.api_secret.as_str().as_bytes());
        FtxAuthSettings::sign_from_mac(mac.as_slice())
    }

    /// The signature that stands for an authentication tag: the tag in
    /// lowercase hex.
    pub fn sign_from_mac(mac: &[u8]) -> (sign: String)
        ensures
            sign@ == hex_text(mac@),
            sign@.len() == 2 * mac@.len(),
            forall|i: int| 0 <= i < sign@.len() ==> is_lower_hex_digit(#[trigger] sign@[i]),
    {
        proof {
            lemma_hex_text_shape(mac@);
        }
        hex_encode(mac)
    }

    /// The system clock in milliseconds since the Unix epoch, or the clock's
    /// error where it reads earlier than the epoch.
    pub fn generate_timestamp() -> (timestamp: Result<u128, std::time::SystemTimeError>) {
        let now = std::time::SystemTime::now();
        match since_unix_epoch(&now) {
            Ok(elapsed) => Ok(elapsed.as_millis()),
            Err(error) => Err(error),
        }
    }
}

} // verus!
