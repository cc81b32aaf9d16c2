//! Byte-exact protocol codec.
//!
//! Every message form has a specification-level encoding function over
//! plain values, and decode-side predicates that say, of a raw byte
//! sequence, whether it holds a complete message, which error it shows,
//! and what the decoded parts are. The executable encoders and decoders
//! are proved against these, and round-trip lemmas tie the two sides
//! together: decoding an encoding yields the value back, and re-encoding
//! a decoded message reproduces the consumed bytes.
//!
//! A decoder that answers `Truncated` has seen no error yet: on a live
//! stream the caller may read more bytes and try again; on a closed
//! stream the message can never complete.

use vstd::prelude::*;

use crate::msg::AddrType;
use crate::msg::Destination;
use crate::msg::HandshakeRequest;
use crate::msg::Reply;
use crate::msg::Request;
use crate::msg::ResponseCode;
use crate::msg::SockCommand;
use crate::msg::SOCKS_VERSION;
use crate::msg::atyp_code;
use crate::msg::atyp_from_byte;
use crate::msg::command_code;
use crate::msg::command_from_byte;
use crate::msg::response_code_byte;
use crate::msg::response_code_from_byte;

verus! {

/// A protocol-level decode failure. All are deterministic functions of
/// the bytes seen; the connection handler decides what follows.
#[derive(Clone, Copy, Debug, PartialEq, Eq, Structural)]
pub enum ProtocolError {
    /// The first byte was not the protocol version.
    UnsupportedVersion,
    /// The bytes end before the message does.
    Truncated,
    /// The command byte names no known command.
    UnsupportedCommand,
    /// The address-type byte names no known address type.
    UnsupportedAddressType,
    /// The response-code byte of a reply names no known code.
    UnsupportedResponseCode,
}

/// Well-formedness of an address for its tag: the byte length matches
/// the address type, and a domain name fits its one-byte length prefix.
pub open spec fn addr_wf(atyp: AddrType, addr: Seq<u8>) -> bool {
    match atyp {
        AddrType::V4 => addr.len() == 4,
        AddrType::Domain => addr.len() <= 255,
        AddrType::V6 => addr.len() == 16,
    }
}

/// High byte of a port in network byte order.
pub open spec fn port_hi(port: u16) -> u8 {
    (port / 256) as u8
}

/// Low byte of a port in network byte order.
pub open spec fn port_lo(port: u16) -> u8 {
    (port % 256) as u8
}

/// The port a big-endian byte pair denotes.
pub open spec fn port_value(hi: u8, lo: u8) -> u16 {
    (hi * 256 + lo) as u16
}

/// The wire form of an address: bare bytes for V4 and V6, the one-byte
/// length prefix then the name for a domain.
pub open spec fn addr_encoding(atyp: AddrType, addr: Seq<u8>) -> Seq<u8> {
    match atyp {
        AddrType::V4 => addr,
        AddrType::Domain => seq![addr.len() as u8] + addr,
        AddrType::V6 => addr,
    }
}

/// The wire form of a destination: address type, address, then the
/// port in big-endian order.
pub open spec fn dest_encoding(atyp: AddrType, addr: Seq<u8>, port: u16) -> Seq<u8> {
    seq![atyp_code(atyp)] + addr_encoding(atyp, addr) + seq![port_hi(port), port_lo(port)]
}

/// The wire form of a handshake request: version, method count, methods.
pub open spec fn handshake_encoding(methods: Seq<u8>) -> Seq<u8> {
    seq![SOCKS_VERSION, methods.len() as u8] + methods
}

/// The wire form of a handshake reply: version, selected method.
pub open spec fn handshake_reply_encoding(method: u8) -> Seq<u8> {
    seq![SOCKS_VERSION, method]
}

/// The wire form of a request: version, command, reserved zero, then
/// the destination.
pub open spec fn request_encoding(cmd: SockCommand, atyp: AddrType, addr: Seq<u8>, port: u16) -> Seq<
    u8,
> {
    seq![SOCKS_VERSION, command_code(cmd), 0u8] + dest_encoding(atyp, addr, port)
}

/// The wire form of a reply: version, response code, reserved zero,
/// then the bound address.
pub open spec fn reply_encoding(
    code: ResponseCode,
    atyp: AddrType,
    addr: Seq<u8>,
    port: u16,
) -> Seq<u8> {
    seq![SOCKS_VERSION, response_code_byte(code), 0u8] + dest_encoding(atyp, addr, port)
}

/// The bytes open with a version other than the protocol's.
pub open spec fn bad_version(b: Seq<u8>) -> bool {
    b.len() >= 1 && b[0] != SOCKS_VERSION
}

/// The bytes hold a whole handshake request: version, count, and at
/// least as many method bytes as the count announces.
pub open spec fn handshake_complete(b: Seq<u8>) -> bool {
    b.len() >= 2 && b[0] == SOCKS_VERSION && b.len() >= 2 + b[1]
}

/// How many bytes the handshake request at the front occupies.
pub open spec fn handshake_len(b: Seq<u8>) -> int
    recommends
        handshake_complete(b),
{
    2 + b[1]
}

/// The methods offered by the handshake request at the front.
pub open spec fn handshake_methods(b: Seq<u8>) -> Seq<u8>
    recommends
        handshake_complete(b),
{
    b.subrange(2, 2 + b[1] as int)
}

/// Neither a version error nor a whole handshake yet: more bytes may
/// still complete it.
pub open spec fn handshake_incomplete(b: Seq<u8>) -> bool {
    !bad_version(b) && !handshake_complete(b)
}

/// The version byte is right but the command byte names no command.
pub open spec fn req_bad_command(b: Seq<u8>) -> bool {
    b.len() >= 2 && b[0] == SOCKS_VERSION && command_from_byte(b[1]) is None
}

/// Version and command are right but the address-type byte names no
/// address type.
pub open spec fn req_bad_atyp(b: Seq<u8>) -> bool {
    b.len() >= 4 && b[0] == SOCKS_VERSION && command_from_byte(b[1]) is Some && atyp_from_byte(
        b[3],
    ) is None
}

/// The four-byte header of a request or reply is present with a known
/// address type; the second byte is judged by the caller's own rule.
pub open spec fn msg_header_ok(b: Seq<u8>) -> bool {
    b.len() >= 4 && b[0] == SOCKS_VERSION && atyp_from_byte(b[3]) is Some
}

/// Total length of the request or reply at the front, fixed by the
/// address type and, for a domain, by the length byte. With only the
/// four header bytes present a domain's length byte is still missing,
/// and no value of it lets the message fit in four bytes.
pub open spec fn msg_len(b: Seq<u8>) -> int
    recommends
        msg_header_ok(b),
{
    match atyp_from_byte(b[3]) {
        Some(AddrType::V4) => 10,
        Some(AddrType::Domain) => 7 + b[4],
        Some(AddrType::V6) => 22,
        None => 4,
    }
}

/// The address type of the message at the front.
pub open spec fn msg_atyp(b: Seq<u8>) -> AddrType
    recommends
        msg_header_ok(b),
{
    atyp_from_byte(b[3])->Some_0
}

/// The message at the front is whole.
pub open spec fn msg_complete(b: Seq<u8>) -> bool {
    msg_header_ok(b) && b.len() >= msg_len(b)
}

/// The address bytes of the message at the front, without length
/// prefix for a domain.
pub open spec fn msg_addr(b: Seq<u8>) -> Seq<u8>
    recommends
        msg_complete(b),
{
    match atyp_from_byte(b[3]) {
        Some(AddrType::V4) => b.subrange(4, 8),
        Some(AddrType::Domain) => b.subrange(5, 5 + b[4] as int),
        Some(AddrType::V6) => b.subrange(4, 20),
        None => Seq::empty(),
    }
}

/// The port of the message at the front: its last two bytes.
pub open spec fn msg_port(b: Seq<u8>) -> u16
    recommends
        msg_complete(b),
{
    port_value(b[msg_len(b) - 2], b[msg_len(b) - 1])
}

/// The bytes hold a whole request with a known command.
pub open spec fn request_complete(b: Seq<u8>) -> bool {
    b.len() >= 2 && command_from_byte(b[1]) is Some && msg_complete(b)
}

/// The command of the request at the front.
pub open spec fn request_command(b: Seq<u8>) -> SockCommand
    recommends
        request_complete(b),
{
    command_from_byte(b[1])->Some_0
}

/// No request error is visible yet and the request is not whole: more
/// bytes may still complete it.
pub open spec fn request_incomplete(b: Seq<u8>) -> bool {
    !bad_version(b) && !req_bad_command(b) && !req_bad_atyp(b) && !request_complete(b)
}

/// Version is right but the response-code byte of a reply names no
/// known code.
pub open spec fn rep_bad_code(b: Seq<u8>) -> bool {
    b.len() >= 2 && b[0] == SOCKS_VERSION && response_code_from_byte(b[1]) is None
}

/// Version and response code are right but the address-type byte names
/// no address type.
pub open spec fn rep_bad_atyp(b: Seq<u8>) -> bool {
    b.len() >= 4 && b[0] == SOCKS_VERSION && response_code_from_byte(b[1]) is Some
        && atyp_from_byte(b[3]) is None
}

/// The bytes hold a whole reply with a known response code.
pub open spec fn reply_complete(b: Seq<u8>) -> bool {
    b.len() >= 2 && response_code_from_byte(b[1]) is Some && msg_complete(b)
}

/// The response code of the reply at the front.
pub open spec fn reply_code(b: Seq<u8>) -> ResponseCode
    recommends
        reply_complete(b),
{
    response_code_from_byte(b[1])->Some_0
}

/// No reply error is visible yet and the reply is not whole.
pub open spec fn reply_incomplete(b: Seq<u8>) -> bool {
    !bad_version(b) && !rep_bad_code(b) && !rep_bad_atyp(b) && !reply_complete(b)
}

/// Decodes the handshake request at the front of `buf`: the version
/// byte, the method count, then that many method bytes. Returns the
/// message and how many bytes it occupied, or the exact error the
/// bytes show.
pub fn decode_handshake_request(buf: &[u8]) -> (r: Result<(HandshakeRequest, usize), ProtocolError>)
    ensures
        match r {
            Ok(p) => {
                &&& handshake_complete(buf@)
                &&& p.0.methods@ == handshake_methods(buf@)
                &&& p.0.wf()
                &&& p.1 == handshake_len(buf@)
                &&& p.1 <= buf@.len()
            },
            Err(ProtocolError::UnsupportedVersion) => bad_version(buf@),
            Err(ProtocolError::Truncated) => handshake_incomplete(buf@),
            Err(_) => false,
        },
{
    if buf.len() < 1 {
        return Err(ProtocolError::Truncated);
    }
    if buf[0] != SOCKS_VERSION {
        return Err(ProtocolError::UnsupportedVersion);
    }
    if buf.len() < 2 {
        return Err(ProtocolError::Truncated);
    }
    let count = buf[1] as usize;
    if buf.len() < 2 + count {
        return Err(ProtocolError::Truncated);
    }
    let methods = vstd::slice::slice_to_vec(vstd::slice::slice_subrange(buf, 2, 2 + count));
    Ok((HandshakeRequest { methods }, 2 + count))
}

/// Encodes a handshake request: version, method count, methods.
pub fn encode_handshake_request(h: &HandshakeRequest) -> (out: Vec<u8>)
    requires
        h.wf(),
    ensures
        out@ == handshake_encoding(h.methods@),
{
    let mut out: Vec<u8> = Vec::new();
    out.push(SOCKS_VERSION);
    out.push(h.methods.len() as u8);
    out.extend_from_slice(h.methods.as_slice());
    proof {
        assert(out@ =~= handshake_encoding(h.methods@));
    }
    out
}

/// Encodes a handshake reply: version, then the selected method code
/// (or the sentinel when none was acceptable).
pub fn encode_handshake_reply(method: u8) -> (out: Vec<u8>)
    ensures
        out@ == handshake_reply_encoding(method),
{
    let mut out: Vec<u8> = Vec::new();
    out.push(SOCKS_VERSION);
    out.push(method);
    proof {
        assert(out@ =~= handshake_reply_encoding(method));
    }
    out
}

/// Decodes the handshake reply at the front of `buf`: version byte,
/// then the method the server selected.
pub fn decode_handshake_reply(buf: &[u8]) -> (r: Result<(u8, usize), ProtocolError>)
    ensures
        match r {
            Ok(p) => {
                &&& buf@.len() >= 2
                &&& buf@[0] == SOCKS_VERSION
                &&& p.0 == buf@[1]
                &&& p.1 == 2
            },
            Err(ProtocolError::UnsupportedVersion) => bad_version(buf@),
            Err(ProtocolError::Truncated) => !bad_version(buf@) && buf@.len() < 2,
            Err(_) => false,
        },
{
    if buf.len() < 1 {
        return Err(ProtocolError::Truncated);
    }
    if buf[0] != SOCKS_VERSION {
        return Err(ProtocolError::UnsupportedVersion);
    }
    if buf.len() < 2 {
        return Err(ProtocolError::Truncated);
    }
    Ok((buf[1], 2))
}

/// Reads the two big-endian port bytes at `i`.
fn read_port(buf: &[u8], i: usize) -> (p: u16)
    requires
        i + 2 <= buf@.len(),
    ensures
        p == port_value(buf@[i as int], buf@[i + 1]),
{
    (buf[i] as u16) * 256 + (buf[i + 1] as u16)
}

/// Decodes the request at the front of `buf`: version, command,
/// reserved byte (read leniently, whatever its value), address type,
/// address, port. Returns the request and how many bytes it occupied,
/// or the exact error the bytes show.
pub fn decode_request(buf: &[u8]) -> (r: Result<(Request, usize), ProtocolError>)
    ensures
        match r {
            Ok(p) => {
                &&& request_complete(buf@)
                &&& p.0.command == request_command(buf@)
                &&& p.0.dest.atyp == msg_atyp(buf@)
                &&& p.0.dest.addr@ == msg_addr(buf@)
                &&& p.0.dest.port == msg_port(buf@)
                &&& p.0.wf()
                &&& p.1 == msg_len(buf@)
                &&& p.1 <= buf@.len()
            },
            Err(ProtocolError::UnsupportedVersion) => bad_version(buf@),
            Err(ProtocolError::UnsupportedCommand) => req_bad_command(buf@),
            Err(ProtocolError::UnsupportedAddressType) => req_bad_atyp(buf@),
            Err(ProtocolError::Truncated) => request_incomplete(buf@),
            Err(_) => false,
        },
{
    if buf.len() < 1 {
        return Err(ProtocolError::Truncated);
    }
    if buf[0] != SOCKS_VERSION {
        return Err(ProtocolError::UnsupportedVersion);
    }
    if buf.len() < 2 {
        return Err(ProtocolError::Truncated);
    }
    let command = match SockCommand::from_byte(buf[1]) {
        Some(c) => c,
        None => {
            return Err(ProtocolError::UnsupportedCommand);
        },
    };
    if buf.len() < 4 {
        return Err(ProtocolError::Truncated);
    }
    let atyp = match AddrType::from_byte(buf[3]) {
        Some(t) => t,
        None => {
            return Err(ProtocolError::UnsupportedAddressType);
        },
    };
    match atyp {
        AddrType::V4 => {
            if buf.len() < 10 {
                return Err(ProtocolError::Truncated);
            }
            let addr = vstd::slice::slice_to_vec(vstd::slice::slice_subrange(buf, 4, 8));
            let port = read_port(buf, 8);
            Ok((Request { command, dest: Destination { atyp, addr, port } }, 10))
        },
        AddrType::V6 => {
            if buf.len() < 22 {
                return Err(ProtocolError::Truncated);
            }
            let addr = vstd::slice::slice_to_vec(vstd::slice::slice_subrange(buf, 4, 20));
            let port = read_port(buf, 20);
            Ok((Request { command, dest: Destination { atyp, addr, port } }, 22))
        },
        AddrType::Domain => {
            if buf.len() < 5 {
                return Err(ProtocolError::Truncated);
            }
            let name_len = buf[4] as usize;
            if buf.len() < 7 + name_len {
                return Err(ProtocolError::Truncated);
            }
            let addr = vstd::slice::slice_to_vec(
                vstd::slice::slice_subrange(buf, 5, 5 + name_len),
            );
            let port = read_port(buf, 5 + name_len);
            Ok((Request { command, dest: Destination { atyp, addr, port } }, 7 + name_len))
        },
    }
}

/// Appends the wire form of a destination: address type, address
/// (length-prefixed for a domain), then the port.
fn encode_dest_into(out: &mut Vec<u8>, d: &Destination)
    requires
        d.wf(),
    ensures
        final(out)@ == old(out)@ + dest_encoding(d.atyp, d.addr@, d.port),
{
    out.push(d.atyp.code());
    match d.atyp {
        AddrType::Domain => {
            out.push(d.addr.len() as u8);
        },
        AddrType::V4 => {},
        AddrType::V6 => {},
    }
    out.extend_from_slice(d.addr.as_slice());
    out.push((d.port / 256) as u8);
    out.push((d.port % 256) as u8);
    proof {
        assert(out@ =~= old(out)@ + dest_encoding(d.atyp, d.addr@, d.port));
    }
}

/// Encodes a request: version, command, reserved zero, destination.
pub fn encode_request(q: &Request) -> (out: Vec<u8>)
    requires
        q.wf(),
    ensures
        out@ == request_encoding(q.command, q.dest.atyp, q.dest.addr@, q.dest.port),
{
    let mut out: Vec<u8> = Vec::new();
    out.push(SOCKS_VERSION);
    out.push(q.command.code());
    out.push(0);
    encode_dest_into(&mut out, &q.dest);
    proof {
        assert(out@ =~= request_encoding(q.command, q.dest.atyp, q.dest.addr@, q.dest.port));
    }
    out
}

/// Encodes a reply: version, response code, reserved zero, bound
/// address.
pub fn encode_reply(rep: &Reply) -> (out: Vec<u8>)
    requires
        rep.wf(),
    ensures
        out@ == reply_encoding(rep.code, rep.bound.atyp, rep.bound.addr@, rep.bound.port),
{
    let mut out: Vec<u8> = Vec::new();
    out.push(SOCKS_VERSION);
    out.push(rep.code.code());
    out.push(0);
    encode_dest_into(&mut out, &rep.bound);
    proof {
        assert(out@ =~= reply_encoding(rep.code, rep.bound.atyp, rep.bound.addr@, rep.bound.port));
    }
    out
}

/// Decodes the reply at the front of `buf`: version, response code,
/// reserved byte (read leniently), address type, bound address, port.
pub fn decode_reply(buf: &[u8]) -> (r: Result<(Reply, usize), ProtocolError>)
    ensures
        match r {
            Ok(p) => {
                &&& reply_complete(buf@)
                &&& p.0.code == reply_code(buf@)
                &&& p.0.bound.atyp == msg_atyp(buf@)
                &&& p.0.bound.addr@ == msg_addr(buf@)
                &&& p.0.bound.port == msg_port(buf@)
                &&& p.0.wf()
                &&& p.1 == msg_len(buf@)
                &&& p.1 <= buf@.len()
            },
            Err(ProtocolError::UnsupportedVersion) => bad_version(buf@),
            Err(ProtocolError::UnsupportedResponseCode) => rep_bad_code(buf@),
            Err(ProtocolError::UnsupportedAddressType) => rep_bad_atyp(buf@),
            Err(ProtocolError::Truncated) => reply_incomplete(buf@),
            Err(_) => false,
        },
{
    if buf.len() < 1 {
        return Err(ProtocolError::Truncated);
    }
    if buf[0] != SOCKS_VERSION {
        return Err(ProtocolError::UnsupportedVersion);
    }
    if buf.len() < 2 {
        return Err(ProtocolError::Truncated);
    }
    let code = match ResponseCode::from_byte(buf[1]) {
        Some(c) => c,
        None => {
            return Err(ProtocolError::UnsupportedResponseCode);
        },
    };
    if buf.len() < 4 {
        return Err(ProtocolError::Truncated);
    }
    let atyp = match AddrType::from_byte(buf[3]) {
        Some(t) => t,
        None => {
            return Err(ProtocolError::UnsupportedAddressType);
        },
    };
    match atyp {
        AddrType::V4 => {
            if buf.len() < 10 {
                return Err(ProtocolError::Truncated);
            }
            let addr = vstd::slice::slice_to_vec(vstd::slice::slice_subrange(buf, 4, 8));
            let port = read_port(buf, 8);
            Ok((Reply { code, bound: Destination { atyp, addr, port } }, 10))
        },
        AddrType::V6 => {
            if buf.len() < 22 {
                return Err(ProtocolError::Truncated);
            }
            let addr = vstd::slice::slice_to_vec(vstd::slice::slice_subrange(buf, 4, 20));
            let port = read_port(buf, 20);
            Ok((Reply { code, bound: Destination { atyp, addr, port } }, 22))
        },
        AddrType::Domain => {
            if buf.len() < 5 {
                return Err(ProtocolError::Truncated);
            }
            let name_len = buf[4] as usize;
            if buf.len() < 7 + name_len {
                return Err(ProtocolError::Truncated);
            }
            let addr = vstd::slice::slice_to_vec(
                vstd::slice::slice_subrange(buf, 5, 5 + name_len),
            );
            let port = read_port(buf, 5 + name_len);
            Ok((Reply { code, bound: Destination { atyp, addr, port } }, 7 + name_len))
        },
    }
}

/// Splitting a port into its two wire bytes and reading them back
/// yields the port.
proof fn lemma_port_roundtrip(port: u16)
    ensures
        port_value(port_hi(port), port_lo(port)) == port,
{
    vstd::arithmetic::div_mod::lemma_fundamental_div_mod(port as int, 256);
}

/// Reading a big-endian byte pair and splitting the port again yields
/// the same two bytes.
proof fn lemma_port_bytes_roundtrip(hi: u8, lo: u8)
    ensures
        port_hi(port_value(hi, lo)) == hi,
        port_lo(port_value(hi, lo)) == lo,
{
    vstd::arithmetic::div_mod::lemma_fundamental_div_mod_converse(
        hi * 256 + lo,
        256,
        hi as int,
        lo as int,
    );
}

/// The frame `[version, x, 0, destination...]` decodes to exactly the
/// parts it was built from, whatever its second byte.
proof fn lemma_frame_decodes(second: u8, atyp: AddrType, addr: Seq<u8>, port: u16)
    requires
        addr_wf(atyp, addr),
    ensures
        ({
            let b = seq![SOCKS_VERSION, second, 0u8] + dest_encoding(atyp, addr, port);
            &&& msg_complete(b)
            &&& b.len() == msg_len(b)
            &&& b[1] == second
            &&& b[2] == 0
            &&& msg_atyp(b) == atyp
            &&& msg_addr(b) == addr
            &&& msg_port(b) == port
        }),
{
    let d = dest_encoding(atyp, addr, port);
    let b = seq![SOCKS_VERSION, second, 0u8] + d;
    lemma_port_roundtrip(port);
    assert(b[3] == atyp_code(atyp));
    match atyp {
        AddrType::V4 => {
            assert(b.len() == 10);
            assert(msg_len(b) == 10);
            assert(msg_addr(b) =~= addr);
            assert(b[8] == port_hi(port) && b[9] == port_lo(port));
        },
        AddrType::Domain => {
            assert(b[4] == addr.len() as u8);
            assert(b.len() == 7 + addr.len());
            assert(msg_len(b) == 7 + addr.len());
            assert(msg_addr(b) =~= addr);
            assert(b[b.len() - 2] == port_hi(port) && b[b.len() - 1] == port_lo(port));
        },
        AddrType::V6 => {
            assert(b.len() == 22);
            assert(msg_len(b) == 22);
            assert(msg_addr(b) =~= addr);
            assert(b[20] == port_hi(port) && b[21] == port_lo(port));
        },
    }
}

/// Re-encoding the parts of a complete frame with a zero reserved byte
/// reproduces exactly the bytes the frame occupies.
proof fn lemma_frame_bytes_round_trip(b: Seq<u8>)
    requires
        msg_complete(b),
        b[2] == 0,
    ensures
        seq![SOCKS_VERSION, b[1], 0u8] + dest_encoding(msg_atyp(b), msg_addr(b), msg_port(b))
            =~= b.subrange(0, msg_len(b)),
{
    let n = msg_len(b);
    lemma_port_bytes_roundtrip(b[n - 2], b[n - 1]);
    let e = seq![SOCKS_VERSION, b[1], 0u8] + dest_encoding(msg_atyp(b), msg_addr(b), msg_port(b));
    assert(atyp_code(msg_atyp(b)) == b[3]);
    match msg_atyp(b) {
        AddrType::V4 => {
            assert(e =~= b.subrange(0, n));
        },
        AddrType::Domain => {
            assert(msg_addr(b).len() == b[4]);
            assert(e =~= b.subrange(0, n));
        },
        AddrType::V6 => {
            assert(e =~= b.subrange(0, n));
        },
    }
}

/// Round trip of a handshake request through its encoding: the bytes
/// of a well-formed offered set decode back to that set, and occupy
/// the whole encoding.
pub proof fn lemma_handshake_round_trip(methods: Seq<u8>)
    requires
        methods.len() <= 255,
    ensures
        ({
            let b = handshake_encoding(methods);
            &&& handshake_complete(b)
            &&& handshake_len(b) == b.len()
            &&& handshake_methods(b) == methods
        }),
{
    let b = handshake_encoding(methods);
    assert(b[1] == methods.len() as u8);
    assert(handshake_methods(b) =~= methods);
}

/// Round trip of handshake bytes: re-encoding the decoded offered set
/// reproduces exactly the bytes the message occupies.
pub proof fn lemma_handshake_bytes_round_trip(b: Seq<u8>)
    requires
        handshake_complete(b),
    ensures
        handshake_encoding(handshake_methods(b)) == b.subrange(0, handshake_len(b)),
{
    assert(handshake_methods(b).len() == b[1]);
    assert(handshake_encoding(handshake_methods(b)) =~= b.subrange(0, handshake_len(b)));
}

/// The selected-method byte of a handshake reply decodes back from its
/// two-byte encoding.
pub proof fn lemma_handshake_reply_round_trip(method: u8)
    ensures
        ({
            let b = handshake_reply_encoding(method);
            b.len() == 2 && b[0] == SOCKS_VERSION && b[1] == method
        }),
{
}

/// Round trip of a request through its encoding, for every supported
/// address type: the encoding of well-formed parts is a complete
/// request that decodes back to exactly those parts.
pub proof fn lemma_request_round_trip(cmd: SockCommand, atyp: AddrType, addr: Seq<u8>, port: u16)
    requires
        addr_wf(atyp, addr),
    ensures
        ({
            let b = request_encoding(cmd, atyp, addr, port);
            &&& request_complete(b)
            &&& msg_len(b) == b.len()
            &&& request_command(b) == cmd
            &&& msg_atyp(b) == atyp
            &&& msg_addr(b) == addr
            &&& msg_port(b) == port
        }),
{
    lemma_frame_decodes(command_code(cmd), atyp, addr, port);
}

/// Round trip of request bytes: re-encoding the decoded parts of a
/// complete request with a zero reserved byte reproduces exactly the
/// bytes the request occupies.
pub proof fn lemma_request_bytes_round_trip(b: Seq<u8>)
    requires
        request_complete(b),
        b[2] == 0,
    ensures
        request_encoding(request_command(b), msg_atyp(b), msg_addr(b), msg_port(b)) == b.subrange(
            0,
            msg_len(b),
        ),
{
    lemma_frame_bytes_round_trip(b);
    assert(command_code(request_command(b)) == b[1]);
}

/// Round trip of a reply through its encoding, for every supported
/// address type: the encoding of well-formed parts is a complete reply
/// that decodes back to exactly those parts.
pub proof fn lemma_reply_round_trip(code: ResponseCode, atyp: AddrType, addr: Seq<u8>, port: u16)
    requires
        addr_wf(atyp, addr),
    ensures
        ({
            let b = reply_encoding(code, atyp, addr, port);
            &&& reply_complete(b)
            &&& msg_len(b) == b.len()
            &&& reply_code(b) == code
            &&& msg_atyp(b) == atyp
            &&& msg_addr(b) == addr
            &&& msg_port(b) == port
        }),
{
    lemma_frame_decodes(response_code_byte(code), atyp, addr, port);
}

/// Round trip of reply bytes: re-encoding the decoded parts of a
/// complete reply with a zero reserved byte reproduces exactly the
/// bytes the reply occupies.
pub proof fn lemma_reply_bytes_round_trip(b: Seq<u8>)
    requires
        reply_complete(b),
        b[2] == 0,
    ensures
        reply_encoding(reply_code(b), msg_atyp(b), msg_addr(b), msg_port(b)) == b.subrange(
            0,
            msg_len(b),
        ),
{
    lemma_frame_bytes_round_trip(b);
    assert(response_code_byte(reply_code(b)) == b[1]);
}

} // verus!
