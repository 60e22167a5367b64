use vstd::prelude::*;

verus! {

/// The result codes that the C-callable shim around the line-protocol
/// client hands back, one per failure point of an exchange.
#[derive(Debug, PartialEq, Eq, Structural)]
pub enum ReturnCode {
    Okay,
    ConnectionError,
    ParseError,
    ProtocolError,
}

impl ReturnCode {
    /// The code's value on the C side.
    pub fn as_byte(&self) -> (r: u8)
        ensures
            r == (match self {
                ReturnCode::Okay => 0u8,
                ReturnCode::ConnectionError => 1u8,
                ReturnCode::ParseError => 2u8,
                ReturnCode::ProtocolError => 3u8,
            }),
    {
        match self {
            ReturnCode::Okay => 0,
            ReturnCode::ConnectionError => 1,
            ReturnCode::ParseError => 2,
            ReturnCode::ProtocolError => 3,
        }
    }
}

/// The verdict of one shim exchange, checked in the order the exchange
/// runs: a failed connection, then a failed send, then a failed receive,
/// and otherwise success.
pub fn exchange_outcome(connect_ok: bool, send_ok: bool, receive_ok: bool) -> (r: ReturnCode)
    ensures
        r == (if !connect_ok {
            ReturnCode::ConnectionError
        } else if !send_ok {
            ReturnCode::ProtocolError
        } else if !receive_ok {
            ReturnCode::ParseError
        } else {
            ReturnCode::Okay
        }),
{
    if !connect_ok {
        ReturnCode::ConnectionError
    } else if !send_ok {
        ReturnCode::ProtocolError
    } else if !receive_ok {
        ReturnCode::ParseError
    } else {
        ReturnCode::Okay
    }
}

} // verus!
