//! Per-connection state machine.
//!
//! One client connection moves through the states handshake →
//! negotiation → request → connecting → relaying → closed. Each state
//! has one transition function, a pure decision from the bytes read so
//! far (or the outcome of the outbound connect) to the next state, the
//! bytes to send back, and how many input bytes were consumed. The
//! caller performs the I/O: it feeds accumulated bytes with an
//! end-of-stream flag, writes the returned output, dials the
//! destination of a `Connecting` state, and tears everything down on
//! `Closed`.
//!
//! Protocol errors close the connection without any reply: a client
//! that sends a wrong version, an unknown command byte or an unknown
//! address type gets nothing back. Only a whole, well-formed request
//! is answered with a reply — a success or failure report after the
//! connect attempt, or a command-not-supported reply for the two
//! commands the server recognizes but does not relay.

use vstd::prelude::*;

use crate::auth::select_method;
use crate::auth::spec_select_method;
use crate::codec::ProtocolError;
use crate::codec::bad_version;
use crate::codec::decode_handshake_request;
use crate::codec::decode_request;
use crate::codec::encode_handshake_reply;
use crate::codec::encode_reply;
use crate::codec::handshake_complete;
use crate::codec::handshake_incomplete;
use crate::codec::handshake_len;
use crate::codec::handshake_methods;
use crate::codec::handshake_reply_encoding;
use crate::codec::msg_addr;
use crate::codec::msg_atyp;
use crate::codec::msg_len;
use crate::codec::msg_port;
use crate::codec::reply_encoding;
use crate::codec::req_bad_atyp;
use crate::codec::req_bad_command;
use crate::codec::request_command;
use crate::codec::request_complete;
use crate::codec::request_incomplete;
use crate::msg::AddrType;
use crate::msg::Destination;
use crate::msg::HandshakeRequest;
use crate::msg::NO_ACCEPTABLE_METHODS;
use crate::msg::Reply;
use crate::msg::Request;
use crate::msg::ResponseCode;
use crate::msg::SockCommand;

verus! {

/// The states of one client connection. `NegotiateAuth` carries the
/// client's offer, `Connecting` the request whose destination the
/// caller must dial. `Closed` is terminal: both sockets are shut and
/// nothing further is read or written.
#[derive(Clone, Debug)]
pub enum ConnState {
    AwaitHandshake,
    NegotiateAuth(HandshakeRequest),
    AwaitRequest,
    Connecting(Request),
    Relaying,
    Closed,
}

/// What one transition decided: the state to move to, the bytes to
/// write to the client, and how many buffered input bytes were used
/// up and may be discarded.
pub struct StepResult {
    pub next: ConnState,
    pub output: Vec<u8>,
    pub consumed: usize,
}

/// Why the outbound connect failed, as the dialling caller saw it.
#[derive(Clone, Copy, Debug, PartialEq, Eq, Structural)]
pub enum ConnectFailure {
    /// The domain name resolved to no address.
    ResolutionFailed,
    /// Every candidate address refused the connection.
    Refused,
    /// The network was unreachable.
    NetworkUnreachable,
    /// The host was unreachable.
    HostUnreachable,
    /// The connect attempt timed out.
    TimedOut,
    /// Any other cause.
    Other,
}

/// How the outbound connect ended: the bound local address of the new
/// socket, or the failure cause.
#[derive(Clone, Debug)]
pub enum ConnectOutcome {
    Connected(Destination),
    Failed(ConnectFailure),
}

/// The fixed mapping from connect failures to reply codes: resolution
/// and host failures report the host unreachable, a refusal reports
/// the connection refused, a timeout reports the TTL expired, and an
/// unknown cause reports a general failure.
pub open spec fn failure_code(f: ConnectFailure) -> ResponseCode {
    match f {
        ConnectFailure::ResolutionFailed => ResponseCode::HostUnreachable,
        ConnectFailure::Refused => ResponseCode::ConnectionRefused,
        ConnectFailure::NetworkUnreachable => ResponseCode::NetworkUnreachable,
        ConnectFailure::HostUnreachable => ResponseCode::HostUnreachable,
        ConnectFailure::TimedOut => ResponseCode::TtlExpired,
        ConnectFailure::Other => ResponseCode::GeneralFailure,
    }
}

/// The all-zero V4 address used in replies when no bound address is
/// known.
pub open spec fn zero_addr4() -> Seq<u8> {
    seq![0u8, 0u8, 0u8, 0u8]
}

/// Builds the zero-filled V4 destination for failure replies.
fn zero_v4_dest() -> (d: Destination)
    ensures
        d.atyp == AddrType::V4,
        d.addr@ == zero_addr4(),
        d.port == 0,
        d.wf(),
{
    let mut addr: Vec<u8> = Vec::new();
    addr.push(0);
    addr.push(0);
    addr.push(0);
    addr.push(0);
    proof {
        assert(addr@ =~= zero_addr4());
    }
    Destination { atyp: AddrType::V4, addr, port: 0 }
}

/// An empty output buffer.
fn no_output() -> (out: Vec<u8>)
    ensures
        out@.len() == 0,
{
    Vec::new()
}

/// Transition out of `AwaitHandshake`, on the bytes buffered so far
/// and whether the client stream has ended.
///
/// A wrong version byte closes the connection at once, with no reply
/// of any kind; so does a stream that ends before the message does.
/// A whole handshake moves to negotiation with the client's offer. An
/// incomplete one on a live stream stays put, consuming nothing, until
/// more bytes arrive.
pub fn on_handshake_bytes(buf: &[u8], eof: bool) -> (r: StepResult)
    ensures
        r.output@.len() == 0,
        bad_version(buf@) ==> r.next is Closed,
        handshake_complete(buf@) ==> {
            &&& r.next matches ConnState::NegotiateAuth(h) && h.methods@ == handshake_methods(
                buf@,
            )
            &&& r.consumed == handshake_len(buf@)
        },
        handshake_incomplete(buf@) && !eof ==> r.next is AwaitHandshake && r.consumed == 0,
        handshake_incomplete(buf@) && eof ==> r.next is Closed,
{
    match decode_handshake_request(buf) {
        Ok((h, n)) => StepResult {
            next: ConnState::NegotiateAuth(h),
            output: no_output(),
            consumed: n,
        },
        Err(ProtocolError::Truncated) => {
            if eof {
                StepResult { next: ConnState::Closed, output: no_output(), consumed: 0 }
            } else {
                StepResult { next: ConnState::AwaitHandshake, output: no_output(), consumed: 0 }
            }
        },
        Err(_) => StepResult { next: ConnState::Closed, output: no_output(), consumed: 0 },
    }
}

/// Transition out of `NegotiateAuth`: pick the method and answer the
/// client. The reply always carries the negotiated byte; when it is
/// the sentinel — the two sides share no method — the connection
/// closes right after the write, and no request is ever read.
pub fn on_negotiate(offer: &HandshakeRequest, server_methods: &[u8]) -> (r: StepResult)
    ensures
        r.output@ == handshake_reply_encoding(
            spec_select_method(server_methods@, offer.methods@),
        ),
        r.consumed == 0,
        spec_select_method(server_methods@, offer.methods@) == NO_ACCEPTABLE_METHODS
            <==> r.next is Closed,
        spec_select_method(server_methods@, offer.methods@) != NO_ACCEPTABLE_METHODS
            <==> r.next is AwaitRequest,
{
    let m = select_method(server_methods, offer.methods.as_slice());
    let output = encode_handshake_reply(m);
    if m == NO_ACCEPTABLE_METHODS {
        StepResult { next: ConnState::Closed, output, consumed: 0 }
    } else {
        StepResult { next: ConnState::AwaitRequest, output, consumed: 0 }
    }
}

/// A client whose offer shares no method with the server's configured
/// set is always answered with the two-byte sentinel reply — and, by
/// the negotiation transition, the connection then closes without a
/// request ever being read.
pub proof fn lemma_unmatched_offer_rejected(server: Seq<u8>, client: Seq<u8>)
    requires
        forall|i: int| 0 <= i < client.len() ==> !server.contains(#[trigger] client[i]),
    ensures
        spec_select_method(server, client) == NO_ACCEPTABLE_METHODS,
        handshake_reply_encoding(spec_select_method(server, client)) == seq![
            crate::msg::SOCKS_VERSION,
            NO_ACCEPTABLE_METHODS,
        ],
{
    crate::auth::lemma_no_common_method(server, client);
}

/// Transition out of `AwaitRequest`, on the bytes buffered so far and
/// whether the client stream has ended.
///
/// A whole CONNECT request moves to `Connecting`, handing the caller
/// the destination to dial; nothing is written yet. A whole BIND or
/// UDP-ASSOCIATE request — recognized, but not relayed by this server
/// — is answered with a command-not-supported reply and the connection
/// closes. Any decode failure after the successful handshake (wrong
/// version, unknown command byte, unknown address type, or a stream
/// that ends mid-message) closes the connection with no reply at all.
pub fn on_request_bytes(buf: &[u8], eof: bool) -> (r: StepResult)
    ensures
        request_complete(buf@) && request_command(buf@) is Connect ==> {
            &&& r.next matches ConnState::Connecting(q) && q.command == SockCommand::Connect
                && q.dest.atyp == msg_atyp(buf@) && q.dest.addr@ == msg_addr(buf@) && q.dest.port
                == msg_port(buf@) && q.wf()
            &&& r.consumed == msg_len(buf@)
            &&& r.output@.len() == 0
        },
        request_complete(buf@) && !(request_command(buf@) is Connect) ==> {
            &&& r.next is Closed
            &&& r.output@ == reply_encoding(
                ResponseCode::CommandNotSupported,
                AddrType::V4,
                zero_addr4(),
                0,
            )
            &&& r.consumed == msg_len(buf@)
        },
        request_incomplete(buf@) && !eof ==> r.next is AwaitRequest && r.consumed == 0
            && r.output@.len() == 0,
        bad_version(buf@) || req_bad_command(buf@) || req_bad_atyp(buf@) || (request_incomplete(
            buf@,
        ) && eof) ==> r.next is Closed && r.output@.len() == 0,
{
    match decode_request(buf) {
        Ok((req, n)) => {
            match req.command {
                SockCommand::Connect => StepResult {
                    next: ConnState::Connecting(req),
                    output: no_output(),
                    consumed: n,
                },
                _ => {
                    let rep = Reply {
                        code: ResponseCode::CommandNotSupported,
                        bound: zero_v4_dest(),
                    };
                    StepResult { next: ConnState::Closed, output: encode_reply(&rep), consumed: n }
                },
            }
        },
        Err(ProtocolError::Truncated) => {
            if eof {
                StepResult { next: ConnState::Closed, output: no_output(), consumed: 0 }
            } else {
                StepResult { next: ConnState::AwaitRequest, output: no_output(), consumed: 0 }
            }
        },
        Err(_) => StepResult { next: ConnState::Closed, output: no_output(), consumed: 0 },
    }
}

/// Transition out of `Connecting`, on the outcome of the dial.
///
/// Success is reported with a reply carrying the bound address the
/// caller actually used, and the relay begins; every failure is
/// reported with its mapped response code over the zero-filled V4
/// address, and the connection closes after the write.
pub fn on_connect_outcome(outcome: ConnectOutcome) -> (r: StepResult)
    requires
        outcome matches ConnectOutcome::Connected(d) ==> d.wf(),
    ensures
        r.consumed == 0,
        outcome matches ConnectOutcome::Connected(d) ==> r.next is Relaying && r.output@
            == reply_encoding(ResponseCode::Success, d.atyp, d.addr@, d.port),
        outcome matches ConnectOutcome::Failed(f) ==> r.next is Closed && r.output@
            == reply_encoding(failure_code(f), AddrType::V4, zero_addr4(), 0),
{
    match outcome {
        ConnectOutcome::Connected(d) => {
            let rep = Reply { code: ResponseCode::Success, bound: d };
            StepResult { next: ConnState::Relaying, output: encode_reply(&rep), consumed: 0 }
        },
        ConnectOutcome::Failed(f) => {
            let code = match f {
                ConnectFailure::ResolutionFailed => ResponseCode::HostUnreachable,
                ConnectFailure::Refused => ResponseCode::ConnectionRefused,
                ConnectFailure::NetworkUnreachable => ResponseCode::NetworkUnreachable,
                ConnectFailure::HostUnreachable => ResponseCode::HostUnreachable,
                ConnectFailure::TimedOut => ResponseCode::TtlExpired,
                ConnectFailure::Other => ResponseCode::GeneralFailure,
            };
            let rep = Reply { code, bound: zero_v4_dest() };
            StepResult { next: ConnState::Closed, output: encode_reply(&rep), consumed: 0 }
        },
    }
}

/// Transition out of `Relaying`: however the relay ended — end of
/// stream on either side, an I/O error, or the idle timeout — the
/// connection closes, and with it both sockets.
pub fn on_relay_end() -> (s: ConnState)
    ensures
        s is Closed,
{
    ConnState::Closed
}

} // verus!
