use crate::stream::ByteStream;
use crate::text::trim_spec;
use crate::text::utf8_to_string;
use vstd::prelude::*;
use vstd::utf8::decode_utf8;
use vstd::utf8::valid_utf8;

verus! {

/// The four bytes `"clnt"` that a client sends before any command.
pub open spec fn spec_client_handshake() -> Seq<u8> {
    seq![99u8, 108u8, 110u8, 116u8]
}

/// The four bytes `"serv"` that a server answers a good handshake with.
pub open spec fn spec_server_handshake() -> Seq<u8> {
    seq![115u8, 101u8, 114u8, 118u8]
}

/// The client's handshake token, `"clnt"`.
pub fn client_handshake() -> (r: Vec<u8>)
    ensures
        r@ == spec_client_handshake(),
{
    let mut v: Vec<u8> = Vec::new();
    v.push(99);
    v.push(108);
    v.push(110);
    v.push(116);
    proof {
        assert(v@ =~= spec_client_handshake());
    }
    v
}

/// The server's handshake token, `"serv"`.
pub fn server_handshake() -> (r: Vec<u8>)
    ensures
        r@ == spec_server_handshake(),
{
    let mut v: Vec<u8> = Vec::new();
    v.push(115);
    v.push(101);
    v.push(114);
    v.push(118);
    proof {
        assert(v@ =~= spec_server_handshake());
    }
    v
}

/// A line that could not be matched against the command vocabulary; the
/// payload is the cleaned-up line.
#[derive(Debug)]
pub enum ParseError {
    UnknownCommand(String),
}

/// The transport-level failures of the line protocol.
#[derive(Debug, PartialEq, Eq, Structural)]
pub enum ProtocolError {
    InvalidCommand,
    CouldNotSend,
    InvalidResponse,
    BadHandshake,
}

/// A command with a canonical line encoding: `to_string` renders the wire
/// line, terminator included, and `from_str` reads a cleaned-up line back
/// into the vocabulary.
pub trait ProtocolCommand: Sized {
    /// The canonical wire line of this command, `"\r\n"` included.
    spec fn spec_wire(&self) -> Seq<char>;

    /// The command a received line means, after the line is trimmed;
    /// `None` when the line is outside the vocabulary.
    spec fn spec_parse(s: Seq<char>) -> Option<Self>;

    fn from_str(s: &str) -> (r: Result<Self, ParseError>)
        ensures
            match r {
                Ok(c) => Self::spec_parse(s@) == Some(c),
                Err(e) => Self::spec_parse(s@) is None && (e matches ParseError::UnknownCommand(t)
                    && t@ == trim_spec(s@)),
            },
    ;

    fn to_string(&self) -> (r: String)
        ensures
            r@ == self.spec_wire(),
    ;
}

/// The position of the first `"\r\n"` in a byte sequence, if any.
pub open spec fn first_crlf(s: Seq<u8>) -> Option<int>
    decreases s.len(),
{
    if s.len() < 2 {
        None
    } else if s[0] == 13 && s[1] == 10 {
        Some(0)
    } else {
        match first_crlf(s.drop_first()) {
            Some(i) => Some(i + 1),
            None => None,
        }
    }
}

/// The first line of a byte sequence, terminator included, if the
/// sequence holds a complete line.
pub open spec fn spec_line_of(s: Seq<u8>) -> Option<Seq<u8>> {
    match first_crlf(s) {
        Some(i) => Some(s.take(i + 2)),
        None => None,
    }
}

pub(crate) proof fn lemma_first_crlf_at(s: Seq<u8>, i: int)
    requires
        0 <= i,
        i + 1 < s.len(),
        s[i] == 13,
        s[i + 1] == 10,
        forall|j: int| #![trigger s[j]] 0 <= j < i ==> !(s[j] == 13 && s[j + 1] == 10),
    ensures
        first_crlf(s) == Some(i),
    decreases i,
{
    if i > 0 {
        let s1 = s.drop_first();
        assert forall|j: int| #![trigger s1[j]] 0 <= j < i - 1 implies !(s1[j] == 13 && s1[j + 1]
            == 10) by {
            assert(s1[j] == s[j + 1]);
            assert(s1[j + 1] == s[j + 2]);
        }
        assert(s1[i - 1] == s[i]);
        assert(s1[i] == s[i + 1]);
        lemma_first_crlf_at(s1, i - 1);
    }
}

proof fn lemma_first_crlf_none(s: Seq<u8>)
    requires
        forall|j: int| #![trigger s[j]] 0 <= j && j + 1 < s.len() ==> !(s[j] == 13 && s[j + 1] == 10),
    ensures
        first_crlf(s) is None,
    decreases s.len(),
{
    if s.len() >= 2 {
        let s1 = s.drop_first();
        assert forall|j: int| #![trigger s1[j]] 0 <= j && j + 1 < s1.len() implies !(s1[j] == 13
            && s1[j + 1] == 10) by {
            assert(s1[j] == s[j + 1]);
            assert(s1[j + 1] == s[j + 2]);
        }
        lemma_first_crlf_none(s1);
    }
}

/// Reads bytes off the stream until the first `"\r\n"`, and decodes the
/// consumed line, terminator included.  When the stream ends before a
/// terminator, everything is consumed and the read fails; a line that is
/// not valid UTF-8 fails the same way.
pub fn read_till_rn(reader: &mut ByteStream) -> (r: Result<String, ProtocolError>)
    requires
        old(reader).wf(),
    ensures
        final(reader).wf(),
        final(reader).input == old(reader).input,
        final(reader).output == old(reader).output,
        match r {
            Ok(s) => (spec_line_of(old(reader).remaining()) matches Some(line) && valid_utf8(line)
                && s@ == decode_utf8(line) && final(reader).read_pos == old(reader).read_pos
                + line.len()),
            Err(e) => (e matches ProtocolError::InvalidResponse) && (match spec_line_of(
                old(reader).remaining(),
            ) {
                Some(line) => !valid_utf8(line) && final(reader).read_pos == old(reader).read_pos
                    + line.len(),
                None => final(reader).read_pos == old(reader).input@.len(),
            }),
        },
{
    let ghost rem = reader.remaining();
    let mut buffer: Vec<u8> = Vec::new();
    let mut last_byte: u8 = 0;

    loop
        invariant_except_break
            forall|j: int| #![trigger rem[j]] 0 <= j < buffer@.len() - 1 ==> !(rem[j] == 13
                && rem[j + 1] == 10),
            buffer@.len() > 0 ==> last_byte == buffer@.last(),
            buffer@.len() == 0 ==> last_byte == 0,
        invariant
            reader.wf(),
            reader.input == old(reader).input,
            reader.output == old(reader).output,
            reader.read_pos == old(reader).read_pos + buffer@.len(),
            rem == old(reader).remaining(),
            buffer@.len() <= rem.len(),
            buffer@ == rem.take(buffer@.len() as int),
        ensures
            reader.wf(),
            reader.input == old(reader).input,
            reader.output == old(reader).output,
            reader.read_pos == old(reader).read_pos + buffer@.len(),
            spec_line_of(rem) == Some(buffer@),
        decreases rem.len() - buffer@.len(),
    {
        let byte = match reader.read_byte() {
            Some(b) => b,
            None => {
                proof {
                    assert(buffer@ =~= rem);
                    lemma_first_crlf_none(rem);
                }
                return Err(ProtocolError::InvalidResponse);
            },
        };
        proof {
            assert(rem[buffer@.len() as int] == byte);
            assert(buffer@.push(byte) =~= rem.take(buffer@.len() + 1 as int));
        }
        buffer.push(byte);

        if last_byte == 13 && byte == 10 {
            proof {
                let n = buffer@.len() as int;
                assert(buffer@[n - 2] == rem[n - 2]);
                assert(buffer@[n - 1] == rem[n - 1]);
                lemma_first_crlf_at(rem, n - 2);
                assert(buffer@ =~= rem.take(n));
            }
            break;
        }
        proof {
            let n = buffer@.len() as int;
            if n >= 2 {
                assert(buffer@[n - 2] == last_byte);
                assert(rem[n - 2] == buffer@[n - 2]);
                assert(rem[n - 1] == byte);
                assert(!(rem[n - 2] == 13 && rem[n - 1] == 10));
            }
        }
        last_byte = byte;
    }

    match utf8_to_string(buffer) {
        Some(s) => Ok(s),
        None => Err(ProtocolError::InvalidResponse),
    }
}

} // verus!
