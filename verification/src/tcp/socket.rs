use crate::devices::smart_socket::apply_switch;
use crate::devices::smart_socket::SmartSocket;
use crate::stream::ByteStream;
use crate::tcp::handshake::try_handshake;
use crate::tcp::handshake::ConnectError;
use crate::tcp::protocol::read_till_rn;
use crate::tcp::protocol::spec_client_handshake;
use crate::tcp::protocol::spec_server_handshake;
use crate::tcp::protocol::spec_line_of;
use crate::tcp::protocol::ParseError;
use crate::tcp::protocol::ProtocolCommand;
use crate::tcp::protocol::ProtocolError;
use crate::text::spec_is_blank;
use crate::text::str_eq;
use crate::text::trim;
use crate::text::trim_end_spec;
use crate::text::trim_spec;
use crate::text::trim_start_spec;
use vstd::prelude::*;
use vstd::string::StringExecFns;
use vstd::utf8::decode_utf8;
use vstd::utf8::encode_utf8;
use vstd::utf8::valid_utf8;

verus! {

/// The socket vocabulary of the line protocol.
#[derive(Clone, Copy, Debug, PartialEq, Eq, Structural)]
pub enum SocketCommand {
    Switch,
    Status,
}

impl ProtocolCommand for SocketCommand {
    open spec fn spec_wire(&self) -> Seq<char> {
        match self {
            SocketCommand::Switch => "switch\r\n"@,
            SocketCommand::Status => "status\r\n"@,
        }
    }

    open spec fn spec_parse(s: Seq<char>) -> Option<Self> {
        if trim_spec(s) == "switch"@ {
            Some(SocketCommand::Switch)
        } else if trim_spec(s) == "status"@ {
            Some(SocketCommand::Status)
        } else {
            None
        }
    }

    fn from_str(s: &str) -> (r: Result<Self, ParseError>) {
        let t = trim(s);
        if str_eq(t, "switch") {
            Ok(SocketCommand::Switch)
        } else if str_eq(t, "status") {
            Ok(SocketCommand::Status)
        } else {
            Err(ParseError::UnknownCommand(t.to_owned()))
        }
    }

    fn to_string(&self) -> (r: String) {
        match self {
            SocketCommand::Switch => "switch\r\n".to_owned(),
            SocketCommand::Status => "status\r\n".to_owned(),
        }
    }
}

/// Encoding any socket command and parsing the line back yields the
/// command it came from.
pub proof fn lemma_socket_command_round_trip(c: SocketCommand)
    ensures
        SocketCommand::spec_parse(c.spec_wire()) == Some(c),
{
    reveal_strlit("switch\r\n");
    reveal_strlit("switch");
    reveal_strlit("status\r\n");
    reveal_strlit("status");
    match c {
        SocketCommand::Switch => {
            let s = "switch\r\n"@;
            assert(!spec_is_blank(s[0]));
            assert(trim_start_spec(s) == s);
            let s1 = s.drop_last();
            let s2 = s1.drop_last();
            assert(spec_is_blank(s.last()));
            assert(spec_is_blank(s1.last()));
            assert(!spec_is_blank(s2.last()));
            assert(trim_end_spec(s) == trim_end_spec(s1));
            assert(trim_end_spec(s1) == trim_end_spec(s2));
            assert(trim_end_spec(s2) == s2);
            assert(s2 =~= "switch"@);
        },
        SocketCommand::Status => {
            let s = "status\r\n"@;
            assert(!spec_is_blank(s[0]));
            assert(trim_start_spec(s) == s);
            let s1 = s.drop_last();
            let s2 = s1.drop_last();
            assert(spec_is_blank(s.last()));
            assert(spec_is_blank(s1.last()));
            assert(!spec_is_blank(s2.last()));
            assert(trim_end_spec(s) == trim_end_spec(s1));
            assert(trim_end_spec(s1) == trim_end_spec(s2));
            assert(trim_end_spec(s2) == s2);
            assert(s2 =~= "status"@);
        },
    }
}


/// The wire line of any socket command is one complete, well-encoded
/// line: a server that reads it consumes exactly the encoding, and
/// parsing what it read yields the command back.
pub proof fn lemma_wire_line_parses(c: SocketCommand)
    ensures
        ({
            let bytes = encode_utf8(c.spec_wire());
            &&& valid_utf8(bytes)
            &&& decode_utf8(bytes) == c.spec_wire()
            &&& spec_line_of(bytes) == Some(bytes)
            &&& SocketCommand::spec_parse(decode_utf8(bytes)) == Some(c)
        }),
{
    lemma_socket_command_round_trip(c);
    vstd::utf8::encode_utf8_valid_utf8(c.spec_wire());
    vstd::utf8::encode_utf8_decode_utf8(c.spec_wire());
    let s = c.spec_wire();
    let bytes = encode_utf8(s);
    match c {
        SocketCommand::Switch => {
            reveal_strlit("switch\r\n");
        },
        SocketCommand::Status => {
            reveal_strlit("status\r\n");
        },
    }
    assert(vstd::utf8::is_ascii_chars(s));
    vstd::utf8::is_ascii_chars_encode_utf8(s);
    assert(bytes.len() == 8);
    assert(bytes[6] == 13 && bytes[7] == 10);
    assert forall|j: int| #![trigger bytes[j]] 0 <= j < 6 implies !(bytes[j] == 13 && bytes[j + 1]
        == 10) by {
        assert(bytes[j] == s[j] as u8);
    }
    crate::tcp::protocol::lemma_first_crlf_at(bytes, 6);
    assert(bytes.take(8) =~= bytes);
}

/// The reply a device gives to one parsed command: `"ok\r\n"` for a
/// switch, the current state for a status query.
pub open spec fn spec_reply(device: SmartSocket, cmd: SocketCommand) -> Seq<char> {
    match cmd {
        SocketCommand::Switch => "ok\r\n"@,
        SocketCommand::Status => if device.is_on {
            "on\r\n"@
        } else {
            "off\r\n"@
        },
    }
}

/// The device state after one parsed command: a switch toggles the flag,
/// a status query changes nothing.
pub open spec fn spec_step(device: SmartSocket, cmd: SocketCommand) -> SmartSocket {
    match cmd {
        SocketCommand::Switch => apply_switch(device),
        SocketCommand::Status => device,
    }
}

/// The reply to a well-formed line outside the vocabulary: an
/// error-indicating line naming the cleaned-up command.  A vocabulary
/// error is recoverable and is answered on the ordinary response path,
/// never treated as a transport failure.
pub open spec fn spec_unknown_reply(line: Seq<char>) -> Seq<char> {
    "Unknown command: "@ + trim_spec(line) + "\r\n"@
}

/// A line-protocol server around one socket device.  The listener that
/// accepts connections and carries bytes lives outside the library.
#[derive(Debug)]
pub struct SocketServer {
    pub device: SmartSocket,
}

impl SocketServer {
    pub fn new(device: SmartSocket) -> (s: SocketServer)
        ensures
            s.device == device,
    {
        SocketServer { device }
    }

    /// Serves one command off the stream: reads a line, matches it
    /// against the vocabulary, steps the device, and writes the reply.
    /// A line outside the vocabulary is recoverable: the device is left
    /// alone and an error-indicating line goes back on the ordinary
    /// response path.  Only a transport fault is an error: a stream that
    /// ends mid-line or a line that is not UTF-8 fails as
    /// `InvalidResponse`, leaving the device untouched and writing
    /// nothing.
    pub fn handle(&mut self, stream: &mut ByteStream) -> (r: Result<(), ProtocolError>)
        requires
            old(stream).wf(),
        ensures
            final(stream).wf(),
            final(stream).input == old(stream).input,
            match r {
                Ok(()) => (spec_line_of(old(stream).remaining()) matches Some(line) && valid_utf8(
                    line,
                ) && final(stream).read_pos == old(stream).read_pos + line.len() && (
                match SocketCommand::spec_parse(decode_utf8(line)) {
                    Some(cmd) => final(self).device == spec_step(old(self).device, cmd) && final(stream).output@ == old(stream).output@ + encode_utf8(
                        spec_reply(old(self).device, cmd),
                    ),
                    None => *final(self) == *old(self) && final(stream).output@ == old(stream).output@ + encode_utf8(spec_unknown_reply(decode_utf8(line))),
                })),
                Err(e) => *final(self) == *old(self) && final(stream).output == old(stream).output
                    && (e matches ProtocolError::InvalidResponse) && (match spec_line_of(
                    old(stream).remaining(),
                ) {
                    Some(line) => !valid_utf8(line) && final(stream).read_pos == old(stream).read_pos + line.len(),
                    None => final(stream).read_pos == old(stream).input@.len(),
                }),
            },
    {
        let line = match read_till_rn(stream) {
            Ok(l) => l,
            Err(_) => {
                return Err(ProtocolError::InvalidResponse);
            },
        };

        let command = match SocketCommand::from_str(line.as_str()) {
            Ok(c) => c,
            Err(ParseError::UnknownCommand(text)) => {
                let mut reply = "Unknown command: ".to_owned();
                reply.append(text.as_str());
                reply.append("\r\n");
                stream.write_str(reply.as_str());
                return Ok(());
            },
        };

        match command {
            SocketCommand::Switch => {
                self.device.switch();
                stream.write_str("ok\r\n");
            },
            SocketCommand::Status => {
                if self.device.is_on() {
                    stream.write_str("on\r\n");
                } else {
                    stream.write_str("off\r\n");
                }
            },
        }
        Ok(())
    }

    /// One whole connection, as the server takes it: the handshake is
    /// completed first, and only when the peer's token is right is a
    /// command read and served.  Any exchange that opens with a token
    /// differing from the expected four bytes is rejected before any
    /// command byte is read, with nothing written and the device
    /// untouched; a token cut short by the transport is a fault of the
    /// connection, also rejected before any command byte is read.
    pub fn serve_connection(&mut self, stream: &mut ByteStream) -> (r: Result<(), ConnectError>)
        requires
            old(stream).wf(),
        ensures
            final(stream).wf(),
            final(stream).input == old(stream).input,
            match r {
                Ok(()) => old(stream).remaining().len() >= 4 && old(stream).remaining().take(4)
                    == spec_client_handshake() && (spec_line_of(
                    old(stream).remaining().skip(4),
                ) matches Some(line) && valid_utf8(line) && final(stream).read_pos == old(stream).read_pos + 4 + line.len() && (match SocketCommand::spec_parse(decode_utf8(line)) {
                    Some(cmd) => final(self).device == spec_step(old(self).device, cmd) && final(stream).output@ == old(stream).output@ + spec_server_handshake() + encode_utf8(
                        spec_reply(old(self).device, cmd),
                    ),
                    None => *final(self) == *old(self) && final(stream).output@ == old(stream).output@ + spec_server_handshake() + encode_utf8(
                        spec_unknown_reply(decode_utf8(line)),
                    ),
                })),
                Err(ConnectError::BadHandshake) => old(stream).remaining().len() >= 4 && old(stream).remaining().take(4) != spec_client_handshake() && *final(self) == *old(self)
                    && final(stream).output == old(stream).output && final(stream).read_pos == old(stream).read_pos + 4,
                Err(ConnectError::Io) => *final(self) == *old(self) && ((old(stream).remaining().len() < 4 && *final(stream) == *old(stream)) || (old(stream).remaining().len() >= 4 && old(stream).remaining().take(4)
                    == spec_client_handshake() && final(stream).output@ == old(stream).output@
                    + spec_server_handshake() && (match spec_line_of(old(stream).remaining().skip(4)) {
                    Some(line) => !valid_utf8(line) && final(stream).read_pos == old(stream).read_pos + 4 + line.len(),
                    None => final(stream).read_pos == old(stream).input@.len(),
                }))),
            },
    {
        let ghost rem = stream.remaining();
        match try_handshake(stream) {
            Ok(()) => {},
            Err(e) => {
                return Err(e);
            },
        }
        proof {
            assert(stream.remaining() =~= rem.skip(4));
        }
        match self.handle(stream) {
            Ok(()) => Ok(()),
            Err(_) => Err(ConnectError::Io),
        }
    }
}

} // verus!
