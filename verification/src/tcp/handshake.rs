use crate::stream::bytes_eq;
use crate::stream::ByteStream;
use crate::tcp::protocol::server_handshake;
use crate::tcp::protocol::spec_client_handshake;
use crate::tcp::protocol::spec_server_handshake;
use vstd::prelude::*;

verus! {

/// What can go wrong while a server takes a connection: the peer sent the
/// wrong token, or the transport failed underneath.
#[derive(Debug, PartialEq, Eq, Structural)]
pub enum ConnectError {
    BadHandshake,
    Io,
}

/// The server's half of the handshake: read four bytes from the peer; on
/// the client token, answer with the server token; on anything else,
/// reject the connection before any command is read, writing nothing.
/// A stream that ends inside the token is a transport fault.
pub fn try_handshake(stream: &mut ByteStream) -> (r: Result<(), ConnectError>)
    requires
        old(stream).wf(),
    ensures
        final(stream).wf(),
        final(stream).input == old(stream).input,
        match r {
            Ok(()) => old(stream).remaining().len() >= 4 && old(stream).remaining().take(4)
                == spec_client_handshake() && final(stream).read_pos == old(stream).read_pos + 4
                && final(stream).output@ == old(stream).output@ + spec_server_handshake(),
            Err(ConnectError::BadHandshake) => old(stream).remaining().len() >= 4 && old(stream).remaining().take(4) != spec_client_handshake() && final(stream).read_pos == old(stream).read_pos + 4 && final(stream).output == old(stream).output,
            Err(ConnectError::Io) => old(stream).remaining().len() < 4 && *final(stream) == *old(stream),
        },
{
    let buf = match stream.read_exact(4) {
        Some(buf) => buf,
        None => {
            return Err(ConnectError::Io);
        },
    };
    let expected = crate::tcp::protocol::client_handshake();
    if !bytes_eq(buf.as_slice(), expected.as_slice()) {
        return Err(ConnectError::BadHandshake);
    }
    let reply = server_handshake();
    stream.write_bytes(reply.as_slice());
    Ok(())
}

} // verus!
