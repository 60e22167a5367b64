use crate::stream::bytes_eq;
use crate::stream::ByteStream;
use crate::tcp::protocol::client_handshake;
use crate::tcp::protocol::read_till_rn;
use crate::tcp::protocol::server_handshake;
use crate::tcp::protocol::spec_client_handshake;
use crate::tcp::protocol::spec_line_of;
use crate::tcp::protocol::spec_server_handshake;
use crate::tcp::protocol::ProtocolCommand;
use crate::tcp::protocol::ProtocolError;
use vstd::prelude::*;
use vstd::utf8::decode_utf8;
use vstd::utf8::encode_utf8;
use vstd::utf8::valid_utf8;

verus! {

/// What a whole client call can fail with: the connection could not be
/// opened, the reply line could not be parsed, or the exchange itself
/// broke down.
#[derive(Debug)]
pub enum SocketError {
    ConnectionError,
    ParseError(crate::tcp::protocol::ParseError),
    ProtocolError(ProtocolError),
}

impl From<crate::tcp::protocol::ParseError> for SocketError {
    fn from(e: crate::tcp::protocol::ParseError) -> (r: Self) {
        SocketError::ParseError(e)
    }
}

impl vstd::std_specs::convert::FromSpecImpl<crate::tcp::protocol::ParseError> for SocketError {
    open spec fn obeys_from_spec() -> bool {
        true
    }

    open spec fn from_spec(v: crate::tcp::protocol::ParseError) -> Self {
        SocketError::ParseError(v)
    }
}

impl From<ProtocolError> for SocketError {
    fn from(e: ProtocolError) -> (r: Self) {
        SocketError::ProtocolError(e)
    }
}

impl vstd::std_specs::convert::FromSpecImpl<ProtocolError> for SocketError {
    open spec fn obeys_from_spec() -> bool {
        true
    }

    open spec fn from_spec(v: ProtocolError) -> Self {
        SocketError::ProtocolError(v)
    }
}

/// The client's half of the handshake: writes exactly the client token
/// (the model's writes land at once, so there is nothing left to flush),
/// then reads exactly four bytes and succeeds just when they are the
/// server token.  On any other answer, or a stream that ends inside the
/// token, the exchange fails as `BadHandshake` and the stream must be
/// abandoned.
pub fn send_handshake(stream: &mut ByteStream) -> (r: Result<(), ProtocolError>)
    requires
        old(stream).wf(),
    ensures
        final(stream).wf(),
        final(stream).input == old(stream).input,
        final(stream).output@ == old(stream).output@ + spec_client_handshake(),
        match r {
            Ok(()) => old(stream).remaining().len() >= 4 && old(stream).remaining().take(4)
                == spec_server_handshake() && final(stream).read_pos == old(stream).read_pos + 4,
            Err(e) => (e matches ProtocolError::BadHandshake) && ((old(stream).remaining().len() < 4
                && final(stream).read_pos == old(stream).read_pos) || (old(stream).remaining().len() >= 4 && old(stream).remaining().take(4) != spec_server_handshake()
                && final(stream).read_pos == old(stream).read_pos + 4)),
        },
{
    let token = client_handshake();
    stream.write_bytes(token.as_slice());

    let buf = match stream.read_exact(4) {
        Some(buf) => buf,
        None => {
            return Err(ProtocolError::BadHandshake);
        },
    };
    let expected = server_handshake();
    if !bytes_eq(buf.as_slice(), expected.as_slice()) {
        return Err(ProtocolError::BadHandshake);
    }
    Ok(())
}

/// One client exchange up to the command: handshake first, then the
/// command's wire line.  On a failed handshake nothing but the client
/// token has been written and the exchange is abandoned.
pub fn send_command<C: ProtocolCommand>(command: C, stream: &mut ByteStream) -> (r: Result<
    (),
    ProtocolError,
>)
    requires
        old(stream).wf(),
    ensures
        final(stream).wf(),
        final(stream).input == old(stream).input,
        match r {
            Ok(()) => final(stream).output@ == old(stream).output@ + spec_client_handshake()
                + encode_utf8(command.spec_wire()) && old(stream).remaining().len() >= 4 && old(stream).remaining().take(4) == spec_server_handshake() && final(stream).read_pos == old(stream).read_pos + 4,
            Err(e) => (e matches ProtocolError::BadHandshake) && final(stream).output@ == old(stream).output@ + spec_client_handshake() && ((old(stream).remaining().len() < 4 && final(stream).read_pos == old(stream).read_pos) || (old(stream).remaining().len() >= 4 && old(stream).remaining().take(4) != spec_server_handshake() && final(stream).read_pos == old(stream).read_pos + 4)),
        },
{
    match send_handshake(stream) {
        Ok(()) => {},
        Err(e) => {
            return Err(e);
        },
    }
    let binding = command.to_string();
    stream.write_str(binding.as_str());
    Ok(())
}

/// Reads one response line off the stream, terminator included.
pub fn receive_response(reader: &mut ByteStream) -> (r: Result<String, ProtocolError>)
    requires
        old(reader).wf(),
    ensures
        final(reader).wf(),
        final(reader).input == old(reader).input,
        final(reader).output == old(reader).output,
        match r {
            Ok(s) => (spec_line_of(old(reader).remaining()) matches Some(line) && valid_utf8(line)
                && s@ == decode_utf8(line) && final(reader).read_pos == old(reader).read_pos
                + line.len()),
            Err(e) => (e matches ProtocolError::InvalidResponse) && (match spec_line_of(
                old(reader).remaining(),
            ) {
                Some(line) => !valid_utf8(line) && final(reader).read_pos == old(reader).read_pos
                    + line.len(),
                None => final(reader).read_pos == old(reader).input@.len(),
            }),
        },
{
    read_till_rn(reader)
}

} // verus!
