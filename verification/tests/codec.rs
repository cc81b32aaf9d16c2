use socksproxy::codec::decode_handshake_reply;
use socksproxy::codec::decode_handshake_request;
use socksproxy::codec::decode_reply;
use socksproxy::codec::decode_request;
use socksproxy::codec::encode_handshake_reply;
use socksproxy::codec::encode_handshake_request;
use socksproxy::codec::encode_reply;
use socksproxy::codec::encode_request;
use socksproxy::codec::ProtocolError;
use socksproxy::msg::AddrType;
use socksproxy::msg::Destination;
use socksproxy::msg::HandshakeRequest;
use socksproxy::msg::Reply;
use socksproxy::msg::Request;
use socksproxy::msg::ResponseCode;
use socksproxy::msg::SockCommand;

#[test]
fn decode_handshake_no_auth() {
    let (h, n) = decode_handshake_request(&[5, 1, 0]).unwrap();
    assert_eq!(h.methods, vec![0]);
    assert_eq!(n, 3);
}

#[test]
fn decode_handshake_preserves_offer_order() {
    let (h, n) = decode_handshake_request(&[5, 3, 2, 0, 2]).unwrap();
    assert_eq!(h.methods, vec![2, 0, 2]);
    assert_eq!(n, 5);
}

#[test]
fn decode_handshake_wrong_version() {
    assert_eq!(
        decode_handshake_request(&[4, 1, 0]),
        Err(ProtocolError::UnsupportedVersion)
    );
}

#[test]
fn decode_handshake_truncated() {
    assert_eq!(decode_handshake_request(&[]), Err(ProtocolError::Truncated));
    assert_eq!(decode_handshake_request(&[5]), Err(ProtocolError::Truncated));
    assert_eq!(
        decode_handshake_request(&[5, 2, 0]),
        Err(ProtocolError::Truncated)
    );
}

#[test]
fn handshake_request_round_trip() {
    let bytes = encode_handshake_request(&HandshakeRequest { methods: vec![0, 2] });
    assert_eq!(bytes, vec![5, 2, 0, 2]);
    let (h, n) = decode_handshake_request(&bytes).unwrap();
    assert_eq!(h.methods, vec![0, 2]);
    assert_eq!(n, bytes.len());
}

#[test]
fn handshake_reply_round_trip() {
    let bytes = encode_handshake_reply(0);
    assert_eq!(bytes, vec![5, 0]);
    assert_eq!(decode_handshake_reply(&bytes).unwrap(), (0, 2));
    let sentinel = encode_handshake_reply(0xFF);
    assert_eq!(sentinel, vec![5, 0xFF]);
    assert_eq!(decode_handshake_reply(&sentinel).unwrap(), (0xFF, 2));
}

#[test]
fn decode_connect_v4() {
    let (req, n) = decode_request(&[5, 1, 0, 1, 1, 1, 1, 1, 0, 80]).unwrap();
    assert_eq!(req.command, SockCommand::Connect);
    assert_eq!(req.dest.atyp, AddrType::V4);
    assert_eq!(req.dest.addr, vec![1, 1, 1, 1]);
    assert_eq!(req.dest.port, 80);
    assert_eq!(n, 10);
}

#[test]
fn decode_connect_v6() {
    let bytes = [
        5, 1, 0, 4, 0, 0, 0, 0, 0, 0, 0, 0, 0, 0, 255, 255, 1, 1, 1, 1, 0, 80,
    ];
    let (req, n) = decode_request(&bytes).unwrap();
    assert_eq!(req.command, SockCommand::Connect);
    assert_eq!(req.dest.atyp, AddrType::V6);
    assert_eq!(
        req.dest.addr,
        vec![0, 0, 0, 0, 0, 0, 0, 0, 0, 0, 255, 255, 1, 1, 1, 1]
    );
    assert_eq!(req.dest.port, 80);
    assert_eq!(n, 22);
}

#[test]
fn decode_connect_domain() {
    let mut bytes = vec![5, 1, 0, 3, 10];
    bytes.extend_from_slice(b"google.com");
    bytes.extend_from_slice(&[0, 80]);
    let (req, n) = decode_request(&bytes).unwrap();
    assert_eq!(req.command, SockCommand::Connect);
    assert_eq!(req.dest.atyp, AddrType::Domain);
    assert_eq!(req.dest.addr, b"google.com".to_vec());
    assert_eq!(req.dest.port, 80);
    assert_eq!(n, bytes.len());
}

#[test]
fn decode_request_unknown_command() {
    assert_eq!(
        decode_request(&[5, 9, 0, 1, 127, 0, 0, 1, 0, 80]),
        Err(ProtocolError::UnsupportedCommand)
    );
}

#[test]
fn decode_request_unknown_address_type() {
    assert_eq!(
        decode_request(&[5, 1, 0, 5, 1, 1, 1, 1, 0, 80]),
        Err(ProtocolError::UnsupportedAddressType)
    );
}

#[test]
fn decode_request_wrong_version() {
    assert_eq!(
        decode_request(&[4, 1, 0, 1, 1, 1, 1, 1, 0, 80]),
        Err(ProtocolError::UnsupportedVersion)
    );
}

#[test]
fn decode_request_truncated() {
    assert_eq!(
        decode_request(&[5, 1, 0, 1, 1, 1]),
        Err(ProtocolError::Truncated)
    );
    // The domain's name and port are still missing after the length byte.
    assert_eq!(
        decode_request(&[5, 1, 0, 3, 10, b'g']),
        Err(ProtocolError::Truncated)
    );
}

#[test]
fn decode_request_lenient_reserved_byte() {
    let (req, n) = decode_request(&[5, 1, 7, 1, 1, 1, 1, 1, 0, 80]).unwrap();
    assert_eq!(req.command, SockCommand::Connect);
    assert_eq!(n, 10);
}

#[test]
fn request_round_trip_all_address_types() {
    let cases = vec![
        Destination { atyp: AddrType::V4, addr: vec![10, 0, 0, 1], port: 8080 },
        Destination {
            atyp: AddrType::V6,
            addr: vec![0, 1, 2, 3, 4, 5, 6, 7, 8, 9, 10, 11, 12, 13, 14, 15],
            port: 443,
        },
        Destination { atyp: AddrType::Domain, addr: b"example.org".to_vec(), port: 65535 },
    ];
    for dest in cases {
        let atyp = dest.atyp;
        let addr = dest.addr.clone();
        let port = dest.port;
        let bytes = encode_request(&Request { command: SockCommand::Connect, dest });
        let (back, n) = decode_request(&bytes).unwrap();
        assert_eq!(n, bytes.len());
        assert_eq!(back.command, SockCommand::Connect);
        assert_eq!(back.dest.atyp, atyp);
        assert_eq!(back.dest.addr, addr);
        assert_eq!(back.dest.port, port);
        // Re-encoding the decoded value reproduces the original bytes.
        assert_eq!(encode_request(&back), bytes);
    }
}

#[test]
fn reply_round_trip_all_address_types() {
    let cases = vec![
        (ResponseCode::Success, AddrType::V4, vec![127, 0, 0, 1], 1080u16),
        (
            ResponseCode::Success,
            AddrType::V6,
            vec![0xFE, 0x80, 0, 0, 0, 0, 0, 0, 0, 0, 0, 0, 0, 0, 0, 1],
            443u16,
        ),
        (ResponseCode::HostUnreachable, AddrType::Domain, b"unreached.example".to_vec(), 0u16),
    ];
    for (code, atyp, addr, port) in cases {
        let bytes = encode_reply(&Reply {
            code,
            bound: Destination { atyp, addr: addr.clone(), port },
        });
        let (back, n) = decode_reply(&bytes).unwrap();
        assert_eq!(n, bytes.len());
        assert_eq!(back.code, code);
        assert_eq!(back.bound.atyp, atyp);
        assert_eq!(back.bound.addr, addr);
        assert_eq!(back.bound.port, port);
        assert_eq!(encode_reply(&back), bytes);
    }
}

#[test]
fn encode_reply_success_v4_bytes() {
    let bytes = encode_reply(&Reply {
        code: ResponseCode::Success,
        bound: Destination { atyp: AddrType::V4, addr: vec![1, 2, 3, 4], port: 0xABCD },
    });
    assert_eq!(bytes, vec![5, 0, 0, 1, 1, 2, 3, 4, 0xAB, 0xCD]);
}

#[test]
fn decode_reply_unknown_code() {
    assert_eq!(
        decode_reply(&[5, 9, 0, 1, 0, 0, 0, 0, 0, 0]),
        Err(ProtocolError::UnsupportedResponseCode)
    );
}

#[test]
fn response_code_bytes() {
    let codes = [
        (ResponseCode::Success, 0u8),
        (ResponseCode::GeneralFailure, 1),
        (ResponseCode::NotAllowed, 2),
        (ResponseCode::NetworkUnreachable, 3),
        (ResponseCode::HostUnreachable, 4),
        (ResponseCode::ConnectionRefused, 5),
        (ResponseCode::TtlExpired, 6),
        (ResponseCode::CommandNotSupported, 7),
        (ResponseCode::AddressTypeNotSupported, 8),
    ];
    for (code, byte) in codes {
        assert_eq!(code.code(), byte);
        assert_eq!(ResponseCode::from_byte(byte), Some(code));
    }
    assert_eq!(ResponseCode::from_byte(9), None);
}

#[test]
fn command_and_atyp_bytes() {
    assert_eq!(SockCommand::Connect.code(), 1);
    assert_eq!(SockCommand::Bind.code(), 2);
    assert_eq!(SockCommand::UdpAssociate.code(), 3);
    assert_eq!(SockCommand::from_byte(1), Some(SockCommand::Connect));
    assert_eq!(SockCommand::from_byte(4), None);
    assert_eq!(AddrType::V4.code(), 1);
    assert_eq!(AddrType::Domain.code(), 3);
    assert_eq!(AddrType::V6.code(), 4);
    assert_eq!(AddrType::from_byte(3), Some(AddrType::Domain));
    assert_eq!(AddrType::from_byte(2), None);
}
