use crate::devices::smart_socket::apply_switch;
use crate::devices::smart_socket::SmartSocket;
use crate::stream::ByteStream;
use vstd::prelude::*;

verus! {

/// The commands of the single-byte binary protocol.  Every request byte
/// decodes to one of them; a byte outside the vocabulary decodes to
/// `Unknown`, never to a failure.
#[derive(Clone, Copy, Debug, PartialEq, Eq, Structural)]
pub enum Command {
    Switch,
    Status,
    Unknown,
}

/// The replies of the single-byte binary protocol.  Every reply byte
/// decodes to one of them; a byte outside the vocabulary decodes to
/// `Error`.
#[derive(Debug, PartialEq, Eq, Structural)]
pub enum Response {
    Okay,
    Enabled,
    Disabled,
    Error,
}

/// The command a request byte means: `0` switches, `1` queries, anything
/// else is unknown.
pub open spec fn spec_command_from_byte(b: u8) -> Command {
    if b == 0 {
        Command::Switch
    } else if b == 1 {
        Command::Status
    } else {
        Command::Unknown
    }
}

/// The byte a command is sent as.
pub open spec fn spec_command_to_byte(c: Command) -> u8 {
    match c {
        Command::Switch => 0,
        Command::Status => 1,
        Command::Unknown => 255,
    }
}

/// The response a reply byte means: `0` acknowledges, `1` enabled, `2`
/// disabled, anything else an error.
pub open spec fn spec_response_from_byte(b: u8) -> Response {
    if b == 0 {
        Response::Okay
    } else if b == 1 {
        Response::Enabled
    } else if b == 2 {
        Response::Disabled
    } else {
        Response::Error
    }
}

/// The byte a response is sent as.
pub open spec fn spec_response_to_byte(r: Response) -> u8 {
    match r {
        Response::Okay => 0,
        Response::Enabled => 1,
        Response::Disabled => 2,
        Response::Error => 255,
    }
}

impl From<u8> for Command {
    fn from(val: u8) -> (r: Self) {
        match val {
            0 => Self::Switch,
            1 => Self::Status,
            _ => Self::Unknown,
        }
    }
}

impl vstd::std_specs::convert::FromSpecImpl<u8> for Command {
    open spec fn obeys_from_spec() -> bool {
        true
    }

    open spec fn from_spec(v: u8) -> Self {
        spec_command_from_byte(v)
    }
}

impl From<Command> for u8 {
    fn from(command: Command) -> (r: u8) {
        match command {
            Command::Switch => 0,
            Command::Status => 1,
            Command::Unknown => 255,
        }
    }
}

impl vstd::std_specs::convert::FromSpecImpl<Command> for u8 {
    open spec fn obeys_from_spec() -> bool {
        true
    }

    open spec fn from_spec(v: Command) -> Self {
        spec_command_to_byte(v)
    }
}

impl From<u8> for Response {
    fn from(val: u8) -> (r: Self) {
        match val {
            0 => Self::Okay,
            1 => Self::Enabled,
            2 => Self::Disabled,
            _ => Self::Error,
        }
    }
}

impl vstd::std_specs::convert::FromSpecImpl<u8> for Response {
    open spec fn obeys_from_spec() -> bool {
        true
    }

    open spec fn from_spec(v: u8) -> Self {
        spec_response_from_byte(v)
    }
}

impl From<Response> for u8 {
    fn from(response: Response) -> (r: u8) {
        match response {
            Response::Okay => 0,
            Response::Enabled => 1,
            Response::Disabled => 2,
            Response::Error => 255,
        }
    }
}

impl vstd::std_specs::convert::FromSpecImpl<Response> for u8 {
    open spec fn obeys_from_spec() -> bool {
        true
    }

    open spec fn from_spec(v: Response) -> Self {
        spec_response_to_byte(v)
    }
}

/// Encoding then decoding any command yields the command it came from.
pub proof fn lemma_command_round_trip(c: Command)
    ensures
        spec_command_from_byte(spec_command_to_byte(c)) == c,
{
}

/// Encoding then decoding any response yields the response it came from.
pub proof fn lemma_response_round_trip(r: Response)
    ensures
        spec_response_from_byte(spec_response_to_byte(r)) == r,
{
}

/// Decoding never fails: every byte outside the command vocabulary
/// decodes to the designated `Unknown` member.
pub proof fn lemma_command_decode_total(b: u8)
    ensures
        b != 0 && b != 1 ==> spec_command_from_byte(b) == Command::Unknown,
{
}

/// Decoding never fails: every byte outside the response vocabulary
/// decodes to the designated `Error` member.
pub proof fn lemma_response_decode_total(b: u8)
    ensures
        b != 0 && b != 1 && b != 2 ==> spec_response_from_byte(b) == Response::Error,
{
}

/// A device that can execute a binary-protocol command: a switch toggles
/// its flag and is acknowledged, a status query reports the flag, an
/// unknown command is answered with `Error` and changes nothing.
pub trait ExecCommand: Sized {
    /// Whether the device currently reports itself switched on.
    spec fn spec_on(&self) -> bool;

    /// The device with its flag set to `on` and everything else kept.
    spec fn spec_set_on(&self, on: bool) -> Self;

    fn exec_command(&mut self, command: Command) -> (r: Response)
        ensures
            match command {
                Command::Switch => r == Response::Okay && *final(self) == old(self).spec_set_on(
                    !old(self).spec_on(),
                ),
                Command::Status => *final(self) == *old(self) && r == (if old(self).spec_on() {
                    Response::Enabled
                } else {
                    Response::Disabled
                }),
                Command::Unknown => *final(self) == *old(self) && r == Response::Error,
            },
    ;
}

impl ExecCommand for SmartSocket {
    open spec fn spec_on(&self) -> bool {
        self.is_on
    }

    open spec fn spec_set_on(&self, on: bool) -> Self {
        SmartSocket { is_on: on, ..*self }
    }

    fn exec_command(&mut self, command: Command) -> (r: Response) {
        match command {
            Command::Switch => {
                self.switch();
                Response::Okay
            },
            Command::Status => {
                if self.is_on() {
                    Response::Enabled
                } else {
                    Response::Disabled
                }
            },
            Command::Unknown => Response::Error,
        }
    }
}

/// The device state after one request byte: only a switch changes it.
pub open spec fn spec_binary_step(d: SmartSocket, b: u8) -> SmartSocket {
    match spec_command_from_byte(b) {
        Command::Switch => apply_switch(d),
        _ => d,
    }
}

/// The reply to one request byte against a given device state.
pub open spec fn spec_binary_reply(d: SmartSocket, b: u8) -> Response {
    match spec_command_from_byte(b) {
        Command::Switch => Response::Okay,
        Command::Status => if d.is_on {
            Response::Enabled
        } else {
            Response::Disabled
        },
        Command::Unknown => Response::Error,
    }
}

/// One step of the binary server loop: decodes the request byte, runs it
/// against the device, and encodes the reply byte.
pub fn serve_byte(device: &mut SmartSocket, request: u8) -> (reply: u8)
    ensures
        *final(device) == spec_binary_step(*old(device), request),
        reply == spec_response_to_byte(spec_binary_reply(*old(device), request)),
{
    let response = device.exec_command(Command::from(request));
    u8::from(response)
}

/// The device state after a run of request bytes, served in order.
pub open spec fn spec_device_after(d: SmartSocket, input: Seq<u8>) -> SmartSocket
    decreases input.len(),
{
    if input.len() == 0 {
        d
    } else {
        spec_binary_step(spec_device_after(d, input.drop_last()), input.last())
    }
}

/// The reply bytes to a run of request bytes, one reply per request.
pub open spec fn spec_replies(d: SmartSocket, input: Seq<u8>) -> Seq<u8>
    decreases input.len(),
{
    if input.len() == 0 {
        Seq::empty()
    } else {
        spec_replies(d, input.drop_last()).push(
            spec_response_to_byte(spec_binary_reply(spec_device_after(d, input.drop_last()), input.last())),
        )
    }
}

/// A run of switch requests against a device that starts switched off
/// leaves it on exactly when the run's length is odd.
pub proof fn lemma_switch_run_parity(d: SmartSocket, input: Seq<u8>)
    requires
        !d.is_on,
        forall|i: int| 0 <= i < input.len() ==> input[i] == 0,
    ensures
        spec_device_after(d, input).is_on == (input.len() % 2 == 1),
    decreases input.len(),
{
    if input.len() > 0 {
        lemma_switch_run_parity(d, input.drop_last());
    }
}

/// Serves one binary-protocol connection: request bytes are answered one
/// at a time, in order, until the peer stops sending.  The listener that
/// accepts connections and carries the bytes lives outside the library.
pub fn serve_connection(device: &mut SmartSocket, stream: &mut ByteStream)
    requires
        old(stream).wf(),
    ensures
        final(stream).wf(),
        final(stream).input == old(stream).input,
        final(stream).read_pos == old(stream).input@.len(),
        *final(device) == spec_device_after(*old(device), old(stream).remaining()),
        final(stream).output@ == old(stream).output@ + spec_replies(
            *old(device),
            old(stream).remaining(),
        ),
{
    let ghost rem = stream.remaining();
    let ghost mut served: int = 0;
    loop
        invariant
            stream.wf(),
            stream.input == old(stream).input,
            rem == old(stream).remaining(),
            0 <= served <= rem.len(),
            stream.read_pos == old(stream).read_pos + served,
            *device == spec_device_after(*old(device), rem.take(served)),
            stream.output@ == old(stream).output@ + spec_replies(*old(device), rem.take(served)),
        ensures
            stream.wf(),
            stream.input == old(stream).input,
            stream.read_pos == old(stream).input@.len(),
            *device == spec_device_after(*old(device), rem),
            stream.output@ == old(stream).output@ + spec_replies(*old(device), rem),
        decreases rem.len() - served,
    {
        let request = match stream.read_byte() {
            Some(b) => b,
            None => {
                proof {
                    assert(rem.take(served) =~= rem);
                }
                break ;
            },
        };
        let reply = serve_byte(device, request);
        stream.write_byte(reply);
        proof {
            served = served + 1;
            assert(rem.take(served).drop_last() =~= rem.take(served - 1));
            assert(rem.take(served).last() == request);
            assert(stream.output@ =~= old(stream).output@ + spec_replies(
                *old(device),
                rem.take(served),
            ));
        }
    }
}

} // verus!
