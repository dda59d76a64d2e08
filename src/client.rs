//! The protocol engine of one connection: handshake, then one
//! request/response cycle at a time. It decides what to send and what a
//! reply means; the caller moves the bytes.
use vstd::prelude::*;
use vstd::string::StringSliceAdditionalSpecFns;
use crate::command::{encode_request, request_bytes, Command};
use crate::frame::{decode_frame, frame_of, frame_read, lemma_frame_round_trip, FrameError, MAX_FRAME_LEN};
use crate::handshake::{blake2b_of, fingerprint_line, handshake_line, lemma_fingerprints_differ};

verus! {

/// Where a connection stands.
#[derive(Debug, Clone, Copy, PartialEq, Eq, Structural)]
pub enum Phase {
    /// The handshake line has not been answered yet.
    Handshaking,
    /// No cycle is in flight: a command may be sent.
    Ready,
    /// A command was sent and its response has not been read.
    Awaiting,
    /// The peer answered the handshake with another fingerprint.
    Refused,
    /// A transfer failed part way: the connection must be discarded.
    Broken,
    /// The connection was closed.
    Closed,
}

/// What went wrong with a call.
#[derive(Debug, PartialEq, Eq)]
pub enum ClientError {
    /// The peer's handshake line differs from ours.
    HandshakeRefused,
    /// The server answered with a non-zero status; this is its message.
    Server(Vec<u8>),
    /// A frame of the reply could not be read.
    Frame(FrameError),
    /// A command is still waiting for its response.
    Busy,
    /// The connection is not in a state to send commands.
    NotReady,
    /// A handshake or response arrived that nothing was waiting for.
    OutOfSequence,
}

/// The abstract state of a connection.
pub struct ClientView {
    pub phase: Phase,
    pub fingerprint: Seq<u8>,
}

/// The client side of one connection.
pub struct Client {
    phase: Phase,
    fingerprint: Vec<u8>,
}

impl View for Client {
    type V = ClientView;

    closed spec fn view(&self) -> ClientView {
        ClientView { phase: self.phase, fingerprint: self.fingerprint@ }
    }
}

/// The reply at the start of `reply`: a status byte, then one frame. Gives
/// whether the status is zero, the frame's payload and the bytes consumed.
pub open spec fn reply_read(reply: Seq<u8>) -> Result<(bool, Seq<u8>, nat), FrameError> {
    if reply.len() == 0 {
        Err(FrameError::Incomplete)
    } else {
        match frame_read(reply.drop_first()) {
            Ok((p, n)) => Ok((reply[0] == 0, p, n + 1)),
            Err(e) => Err(e),
        }
    }
}

/// Answering the handshake line `line` takes `c0` to `c1` with result `r`.
pub open spec fn handshake_step(
    c0: ClientView,
    line: Seq<u8>,
    c1: ClientView,
    r: Result<(), ClientError>,
) -> bool {
    if c0.phase != Phase::Handshaking {
        c1 == c0 && r == Err::<(), ClientError>(ClientError::OutOfSequence)
    } else if line == c0.fingerprint {
        c1 == ClientView { phase: Phase::Ready, ..c0 } && r is Ok
    } else {
        c1 == ClientView { phase: Phase::Refused, ..c0 } && r == Err::<(), ClientError>(
            ClientError::HandshakeRefused,
        )
    }
}

/// Sending `cmd` with the encoded arguments `payload` takes `c0` to `c1`
/// with result `r`, the bytes to write.
pub open spec fn request_step(
    c0: ClientView,
    cmd: Command,
    payload: Seq<u8>,
    c1: ClientView,
    r: Result<Vec<u8>, ClientError>,
) -> bool {
    match c0.phase {
        Phase::Ready => c1 == ClientView { phase: Phase::Awaiting, ..c0 } && r is Ok
            && r->Ok_0@ == request_bytes(cmd, payload),
        Phase::Awaiting => c1 == c0 && r == Err::<Vec<u8>, ClientError>(ClientError::Busy),
        _ => c1 == c0 && r == Err::<Vec<u8>, ClientError>(ClientError::NotReady),
    }
}

/// A response with status byte `status` and frame payload `payload` takes
/// `c0` to `c1` with result `r`, the encoded result.
pub open spec fn response_step(
    c0: ClientView,
    status: u8,
    payload: Seq<u8>,
    c1: ClientView,
    r: Result<Vec<u8>, ClientError>,
) -> bool {
    if c0.phase != Phase::Awaiting {
        c1 == c0 && r == Err::<Vec<u8>, ClientError>(ClientError::OutOfSequence)
    } else {
        &&& c1 == ClientView { phase: Phase::Ready, ..c0 }
        &&& status == 0 ==> r is Ok && r->Ok_0@ == payload
        &&& status != 0 ==> r is Err && r->Err_0 is Server && r->Err_0->Server_0@ == payload
    }
}

/// A client set up for content type `a` whose peer answers with the
/// handshake line of content type `b`, where the two digests differ, is
/// refused; after that it sends no command and accepts no response.
pub proof fn lemma_mismatched_content_refused(
    a: Seq<u8>,
    b: Seq<u8>,
    c0: ClientView,
    c1: ClientView,
    r: Result<(), ClientError>,
    cmd: Command,
    payload: Seq<u8>,
    c2: ClientView,
    r2: Result<Vec<u8>, ClientError>,
    status: u8,
    reply: Seq<u8>,
    c3: ClientView,
    r3: Result<Vec<u8>, ClientError>,
)
    requires
        blake2b_of(a) != blake2b_of(b),
        c0.phase == Phase::Handshaking,
        c0.fingerprint == fingerprint_line(a),
        handshake_step(c0, fingerprint_line(b), c1, r),
        request_step(c1, cmd, payload, c2, r2),
        response_step(c1, status, reply, c3, r3),
    ensures
        r == Err::<(), ClientError>(ClientError::HandshakeRefused),
        c1.phase == Phase::Refused,
        r2 == Err::<Vec<u8>, ClientError>(ClientError::NotReady),
        c2 == c1,
        r3 == Err::<Vec<u8>, ClientError>(ClientError::OutOfSequence),
        c3 == c1,
{
    lemma_fingerprints_differ(a, b);
}

/// A reply whose status byte `status` is followed by a frame carrying `msg`
/// reads as that status and `msg`, whatever follows it; so a non-zero status
/// never reads as a result.
pub proof fn lemma_reply_round_trip(status: u8, msg: Seq<u8>, rest: Seq<u8>)
    requires
        msg.len() <= MAX_FRAME_LEN,
    ensures
        reply_read(seq![status] + frame_of(msg) + rest) == Ok::<(bool, Seq<u8>, nat), FrameError>(
            (status == 0, msg, (9 + msg.len()) as nat),
        ),
{
    let reply = seq![status] + frame_of(msg) + rest;
    assert(reply.drop_first() =~= frame_of(msg) + rest);
    lemma_frame_round_trip(msg, rest);
}

impl Client {
    /// A connection for the content type `content_name`, before its handshake.
    pub fn new(content_name: &str) -> (r: Client)
        ensures
            r@.phase == Phase::Handshaking,
            r@.fingerprint == fingerprint_line(content_name.spec_bytes()),
    {
        Client { phase: Phase::Handshaking, fingerprint: handshake_line(content_name) }
    }

    pub fn phase(&self) -> (r: Phase)
        ensures
            r == self@.phase,
    {
        self.phase
    }

    /// The line to send to the peer first.
    pub fn write_handshake(&self) -> (r: Vec<u8>)
        ensures
            r@ == self@.fingerprint,
    {
        self.fingerprint.clone()
    }

    /// Takes the peer's handshake line, its newline included.
    pub fn read_handshake(&mut self, line: &[u8]) -> (r: Result<(), ClientError>)
        ensures
            handshake_step(old(self)@, line@, final(self)@, r),
    {
        if self.phase != Phase::Handshaking {
            return Err(ClientError::OutOfSequence);
        }
        let mut same = line.len() == self.fingerprint.len();
        let mut i: usize = 0;
        while same && i < line.len()
            invariant
                0 <= i <= line@.len(),
                same ==> line@.len() == self.fingerprint@.len(),
                same ==> line@.subrange(0, i as int) == self.fingerprint@.subrange(0, i as int),
                !same ==> line@ != self.fingerprint@,
            decreases line@.len() - i,
        {
            if line[i] != self.fingerprint[i] {
                assert(line@[i as int] != self.fingerprint@[i as int]);
                same = false;
            }
            i = i + 1;
            if same {
                assert(line@.subrange(0, i as int) =~= line@.subrange(0, i - 1).push(line@[i - 1]));
                assert(self.fingerprint@.subrange(0, i as int)
                    =~= self.fingerprint@.subrange(0, i - 1).push(self.fingerprint@[i - 1]));
            }
        }
        if same {
            assert(line@ =~= line@.subrange(0, i as int));
            assert(self.fingerprint@ =~= self.fingerprint@.subrange(0, i as int));
            self.phase = Phase::Ready;
            Ok(())
        } else {
            self.phase = Phase::Refused;
            Err(ClientError::HandshakeRefused)
        }
    }

    /// Starts a cycle: the bytes to write for `cmd` with the encoded
    /// arguments `payload`. Fails at once while another cycle is in flight.
    pub fn request(&mut self, cmd: Command, payload: &[u8]) -> (r: Result<Vec<u8>, ClientError>)
        requires
            payload@.len() <= MAX_FRAME_LEN,
        ensures
            request_step(old(self)@, cmd, payload@, final(self)@, r),
    {
        match self.phase {
            Phase::Ready => {
                let bytes = encode_request(cmd, payload);
                self.phase = Phase::Awaiting;
                Ok(bytes)
            },
            Phase::Awaiting => Err(ClientError::Busy),
            _ => Err(ClientError::NotReady),
        }
    }

    /// Ends a cycle with the status byte and frame payload the server sent.
    pub fn response(&mut self, status: u8, payload: Vec<u8>) -> (r: Result<Vec<u8>, ClientError>)
        ensures
            response_step(old(self)@, status, payload@, final(self)@, r),
    {
        if self.phase != Phase::Awaiting {
            return Err(ClientError::OutOfSequence);
        }
        self.phase = Phase::Ready;
        if status == 0 {
            Ok(payload)
        } else {
            Err(ClientError::Server(payload))
        }
    }

    /// Ends a cycle with a reply held whole in `reply`: its status byte and
    /// frame. Gives the encoded result and the bytes consumed. Bytes that end
    /// early leave the cycle open; a negative length breaks the connection.
    pub fn read_response(&mut self, reply: &[u8]) -> (r: Result<(Vec<u8>, usize), ClientError>)
        ensures
            old(self)@.phase != Phase::Awaiting ==> final(self)@ == old(self)@ && r == Err::<
                (Vec<u8>, usize),
                ClientError,
            >(ClientError::OutOfSequence),
            old(self)@.phase == Phase::Awaiting ==> match reply_read(reply@) {
                Err(e) => r == Err::<(Vec<u8>, usize), ClientError>(ClientError::Frame(e)) && (
                final(self)@ == if e == FrameError::Incomplete {
                    old(self)@
                } else {
                    ClientView { phase: Phase::Broken, ..old(self)@ }
                }),
                Ok((ok, p, n)) => final(self)@ == ClientView { phase: Phase::Ready, ..old(self)@ }
                    && if ok {
                    r is Ok && r->Ok_0.0@ == p && r->Ok_0.1 as nat == n
                } else {
                    r is Err && r->Err_0 is Server && r->Err_0->Server_0@ == p
                },
            },
    {
        if self.phase != Phase::Awaiting {
            return Err(ClientError::OutOfSequence);
        }
        if reply.len() == 0 {
            return Err(ClientError::Frame(FrameError::Incomplete));
        }
        let status = reply[0];
        let (_, rest) = reply.split_at(1);
        assert(rest@ =~= reply@.drop_first());
        match decode_frame(rest) {
            Ok((payload, n)) => {
                self.phase = Phase::Ready;
                if status == 0 {
                    Ok((payload, n + 1))
                } else {
                    Err(ClientError::Server(payload))
                }
            },
            Err(e) => {
                if e == FrameError::NegativeLength {
                    self.phase = Phase::Broken;
                }
                Err(ClientError::Frame(e))
            },
        }
    }

    /// Marks the connection unusable after a failed transfer.
    pub fn fail(&mut self)
        ensures
            final(self)@ == (ClientView { phase: Phase::Broken, ..old(self)@ }),
    {
        self.phase = Phase::Broken;
    }

    /// Closes the connection: no command may follow.
    pub fn close(&mut self)
        ensures
            final(self)@ == (ClientView { phase: Phase::Closed, ..old(self)@ }),
    {
        self.phase = Phase::Closed;
    }
}

} // verus!
