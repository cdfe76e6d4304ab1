//! The height resolver: from the reply to the height request to the number
//! of the newest block, or the reason why the run cannot start.

use crate::hex::{law_quantity_not_negative, parse_quantity, parse_spec, QuantityError};
use crate::rpc::JsonRpcResponse;
use vstd::prelude::*;
use vstd::utf8::encode_utf8;

verus! {

/// What came back for the height request.
#[derive(Clone, Debug, PartialEq, Eq)]
pub enum HeightReply {
    /// The call ended with nothing.
    NoReply,
    /// Bytes came back, but they do not decode to a reply with a string
    /// result.
    Undecodable,
    /// The decoded reply.
    Decoded(JsonRpcResponse<String>),
}

/// Why the height is not known. Each of these ends the run.
#[derive(Clone, Copy, Debug, PartialEq, Eq, Structural)]
pub enum HeightError {
    /// The call for the height ended with nothing.
    CallFailed,
    /// The reply could not be decoded.
    Malformed,
    /// The result of the reply is not a quantity.
    Quantity(QuantityError),
}

/// The height that `reply` gives, or why it gives none.
pub open spec fn height_of(reply: HeightReply) -> Result<i64, HeightError> {
    match reply {
        HeightReply::NoReply => Err(HeightError::CallFailed),
        HeightReply::Undecodable => Err(HeightError::Malformed),
        HeightReply::Decoded(response) => match parse_spec(encode_utf8(response.result@)) {
            Ok(height) => Ok(height),
            Err(error) => Err(HeightError::Quantity(error)),
        },
    }
}

/// A height is never negative.
pub proof fn law_height_not_negative(reply: HeightReply)
    ensures
        height_of(reply) matches Ok(height) ==> height >= 0,
{
    if let HeightReply::Decoded(response) = reply {
        law_quantity_not_negative(encode_utf8(response.result@));
    }
}

/// Reads the current height of the chain out of the reply to the height
/// request.
pub fn latest_height(reply: &HeightReply) -> (height: Result<i64, HeightError>)
    ensures
        height == height_of(*reply),
        height matches Ok(number) ==> number >= 0,
{
    match reply {
        HeightReply::NoReply => Err(HeightError::CallFailed),
        HeightReply::Undecodable => Err(HeightError::Malformed),
        HeightReply::Decoded(response) => match parse_quantity(response.result.as_str()) {
            Ok(height) => Ok(height),
            Err(error) => Err(HeightError::Quantity(error)),
        },
    }
}

impl HeightError {
    /// The words that go with each error.
    pub open spec fn message_spec(self) -> Seq<char> {
        match self {
            HeightError::CallFailed => "Failed to get block number"@,
            HeightError::Malformed => "Failed to parse"@,
            HeightError::Quantity(_) => "Failed to parse"@,
        }
    }

    /// The words with which a run that cannot learn the height gives up.
    pub fn message(&self) -> (text: &'static str)
        ensures
            text@ == self.message_spec(),
    {
        match self {
            HeightError::CallFailed => "Failed to get block number",
            HeightError::Malformed => "Failed to parse",
            HeightError::Quantity(_) => "Failed to parse",
        }
    }
}

} // verus!
