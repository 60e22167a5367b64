use crate::text::utf8_to_string;
use vstd::prelude::*;
use vstd::utf8::decode_utf8;
use vstd::utf8::encode_utf8;
use vstd::utf8::valid_utf8;

verus! {

/// Length of the datagram length prefix, in bytes.
pub const LENGTH_PREFIX_SIZE: usize = 4;

/// The largest payload a message may carry: the practical UDP datagram
/// ceiling of 65507 bytes, less the four-byte length prefix.
pub const MAX_MESSAGE_SIZE: u32 = 65503;

/// The failures of the datagram protocol.  `InvalidMessage` carries a
/// line saying what was wrong with the message.
#[derive(Debug)]
pub enum ProtocolError {
    InvalidCommand,
    CouldNotSend,
    InvalidMessage(String),
}

/// The datagram traffic of one endpoint: the datagrams that have arrived
/// and wait to be received, and the datagrams sent so far.
///
/// The framing layer is verified against this model; the thin unverified
/// layer around the library moves whole datagrams between it and a real
/// socket.  An empty incoming queue models a receive that fails.
#[derive(Debug)]
pub struct DatagramSocket {
    pub incoming: Vec<Vec<u8>>,
    pub outgoing: Vec<Vec<u8>>,
}

/// What lands in a receive buffer of size `n`: the datagram truncated to
/// `n` bytes, padded with zeroes when it is shorter.
pub open spec fn spec_datagram_read(d: Seq<u8>, n: nat) -> Seq<u8> {
    if d.len() >= n {
        d.take(n as int)
    } else {
        d + Seq::new((n - d.len()) as nat, |i: int| 0u8)
    }
}

impl DatagramSocket {
    /// An endpoint that will receive exactly the datagrams of `incoming`
    /// and has sent nothing.
    pub fn new(incoming: Vec<Vec<u8>>) -> (s: DatagramSocket)
        ensures
            s.incoming@ == incoming@,
            s.outgoing@ =~= Seq::<Vec<u8>>::empty(),
    {
        DatagramSocket { incoming, outgoing: Vec::new() }
    }

    /// Receives the next datagram into a buffer of size `n`, truncating
    /// or zero-padding it; `None` models a receive that fails.
    pub fn recv(&mut self, n: usize) -> (r: Option<Vec<u8>>)
        ensures
            final(self).outgoing == old(self).outgoing,
            match r {
                Some(buf) => old(self).incoming@.len() > 0 && buf@ == spec_datagram_read(
                    old(self).incoming@[0]@,
                    n as nat,
                ) && final(self).incoming@ == old(self).incoming@.drop_first(),
                None => old(self).incoming@.len() == 0 && *final(self) == *old(self),
            },
    {
        if self.incoming.len() == 0 {
            return None;
        }
        let datagram = self.incoming.remove(0);
        let mut buf: Vec<u8> = Vec::new();
        let mut i: usize = 0;
        while i < n
            invariant
                0 <= i <= n,
                buf@.len() == i,
                forall|k: int|
                    0 <= k < i ==> buf@[k] == (if k < datagram@.len() {
                        datagram@[k]
                    } else {
                        0u8
                    }),
            decreases n - i,
        {
            if i < datagram.len() {
                buf.push(datagram[i]);
            } else {
                buf.push(0);
            }
            i = i + 1;
        }
        proof {
            assert(buf@ =~= spec_datagram_read(datagram@, n as nat));
        }
        Some(buf)
    }

    /// Sends one datagram holding exactly `data`; returns how many bytes
    /// it carried.
    pub fn send(&mut self, data: &[u8]) -> (sent: usize)
        ensures
            final(self).incoming == old(self).incoming,
            final(self).outgoing@.len() == old(self).outgoing@.len() + 1,
            final(self).outgoing@.drop_last() == old(self).outgoing@,
            final(self).outgoing@.last()@ == data@,
            sent == data@.len(),
    {
        let n = data.len();
        let datagram = vstd::slice::slice_to_vec(data);
        self.outgoing.push(datagram);
        proof {
            assert(self.outgoing@.drop_last() =~= old(self).outgoing@);
        }
        n
    }
}

/// Sends one message as two datagrams: a four-byte little-endian length
/// prefix, then the UTF-8 payload.  A payload over the bound fails with
/// an oversized-message error before anything reaches the wire.
pub fn send_message(socket: &mut DatagramSocket, message: &str) -> (r: Result<usize, ProtocolError>)
    ensures
        final(socket).incoming == old(socket).incoming,
        ({
            let bytes = encode_utf8(message@);
            match r {
                Ok(sent) => bytes.len() <= MAX_MESSAGE_SIZE && sent == bytes.len() && final(socket).outgoing@.len() == old(socket).outgoing@.len() + 2 && final(socket).outgoing@.drop_last().drop_last() == old(socket).outgoing@ && final(socket).outgoing@[old(socket).outgoing@.len() as int]@
                    == vstd::bytes::spec_u32_to_le_bytes(bytes.len() as u32) && final(socket).outgoing@.last()@ == bytes,
                Err(e) => bytes.len() > MAX_MESSAGE_SIZE && *final(socket) == *old(socket) && (
                e matches ProtocolError::InvalidMessage(t) && t@ == "Message too large"@),
            }
        }),
{
    let bytes = message.as_bytes();
    let len = bytes.len();

    if len > MAX_MESSAGE_SIZE as usize {
        return Err(ProtocolError::InvalidMessage("Message too large".to_owned()));
    }

    let len_bytes = vstd::bytes::u32_to_le_bytes(len as u32);
    socket.send(len_bytes.as_slice());
    socket.send(bytes);
    Ok(len)
}

/// Framing round trip: a message within the bound that is framed by
/// [`send_message`] and whose two datagrams arrive whole is decoded back
/// to exactly the message that was sent.
pub proof fn lemma_message_round_trip(message: Seq<char>)
    requires
        encode_utf8(message).len() <= MAX_MESSAGE_SIZE,
    ensures
        ({
            let bytes = encode_utf8(message);
            let prefix = vstd::bytes::spec_u32_to_le_bytes(bytes.len() as u32);
            &&& spec_datagram_read(prefix, 4) == prefix
            &&& vstd::bytes::spec_u32_from_le_bytes(spec_datagram_read(prefix, 4)) == bytes.len()
            &&& spec_datagram_read(bytes, bytes.len()) == bytes
            &&& valid_utf8(bytes)
            &&& decode_utf8(bytes) == message
        }),
{
    let bytes = encode_utf8(message);
    let prefix = vstd::bytes::spec_u32_to_le_bytes(bytes.len() as u32);
    vstd::bytes::lemma_auto_spec_u32_to_from_le_bytes();
    assert(prefix.len() == 4);
    assert(spec_datagram_read(prefix, 4) =~= prefix);
    assert(spec_datagram_read(bytes, bytes.len()) =~= bytes);
    vstd::utf8::encode_utf8_valid_utf8(message);
    vstd::utf8::encode_utf8_decode_utf8(message);
}

/// Receives one message: a four-byte length prefix, then exactly that
/// many payload bytes, decoded as UTF-8.  A prefix over the bound, a
/// missing datagram or a payload that is not UTF-8 each fail with
/// `InvalidMessage`.
pub fn receive_message(socket: &mut DatagramSocket) -> (r: Result<String, ProtocolError>)
    ensures
        final(socket).outgoing == old(socket).outgoing,
        ({
            let q = old(socket).incoming@;
            match r {
                Ok(s) => q.len() >= 2 && {
                    let len = vstd::bytes::spec_u32_from_le_bytes(
                        spec_datagram_read(q[0]@, 4),
                    ) as nat;
                    let payload = spec_datagram_read(q[1]@, len);
                    len <= MAX_MESSAGE_SIZE && valid_utf8(payload) && s@ == decode_utf8(payload)
                        && final(socket).incoming@ == q.drop_first().drop_first()
                },
                Err(e) => (e matches ProtocolError::InvalidMessage(t) && (if q.len() == 0 {
                    t@ == "Could not read message length"@ && *final(socket) == *old(socket)
                } else {
                    let len = vstd::bytes::spec_u32_from_le_bytes(
                        spec_datagram_read(q[0]@, 4),
                    ) as nat;
                    if len > MAX_MESSAGE_SIZE {
                        t@ == "Message too large"@ && final(socket).incoming@ == q.drop_first()
                    } else if q.len() == 1 {
                        t@ == "Could not read message"@ && final(socket).incoming@ == q.drop_first()
                    } else {
                        let payload = spec_datagram_read(q[1]@, len);
                        t@ == "Invalid message"@ && !valid_utf8(payload) && final(socket).incoming@
                            == q.drop_first().drop_first()
                    }
                })),
            }
        }),
{
    let prefix = match socket.recv(LENGTH_PREFIX_SIZE) {
        Some(buf) => buf,
        None => {
            return Err(ProtocolError::InvalidMessage("Could not read message length".to_owned()));
        },
    };
    let len = vstd::bytes::u32_from_le_bytes(prefix.as_slice());

    if len > MAX_MESSAGE_SIZE {
        return Err(ProtocolError::InvalidMessage("Message too large".to_owned()));
    }

    let payload = match socket.recv(len as usize) {
        Some(buf) => buf,
        None => {
            return Err(ProtocolError::InvalidMessage("Could not read message".to_owned()));
        },
    };
    match utf8_to_string(payload) {
        Some(s) => Ok(s),
        None => Err(ProtocolError::InvalidMessage("Invalid message".to_owned())),
    }
}

} // verus!
