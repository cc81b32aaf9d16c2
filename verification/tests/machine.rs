use socksproxy::conn::on_connect_outcome;
use socksproxy::conn::on_handshake_bytes;
use socksproxy::conn::on_negotiate;
use socksproxy::conn::on_relay_end;
use socksproxy::conn::on_request_bytes;
use socksproxy::conn::ConnectFailure;
use socksproxy::conn::ConnectOutcome;
use socksproxy::conn::ConnState;
use socksproxy::msg::AddrType;
use socksproxy::msg::Destination;
use socksproxy::msg::HandshakeRequest;
use socksproxy::msg::SockCommand;
use socksproxy::ProxyConfig;

#[test]
fn handshake_moves_to_negotiation() {
    let r = on_handshake_bytes(&[5, 1, 0], false);
    match r.next {
        ConnState::NegotiateAuth(h) => assert_eq!(h.methods, vec![0]),
        _ => panic!("expected negotiation"),
    }
    assert_eq!(r.consumed, 3);
    assert!(r.output.is_empty());
}

#[test]
fn wrong_version_closes_silently() {
    let r = on_handshake_bytes(&[4, 1, 0], false);
    assert!(matches!(r.next, ConnState::Closed));
    assert!(r.output.is_empty());
}

#[test]
fn partial_handshake_waits_for_more() {
    let r = on_handshake_bytes(&[5, 2, 0], false);
    assert!(matches!(r.next, ConnState::AwaitHandshake));
    assert_eq!(r.consumed, 0);
    assert!(r.output.is_empty());
}

#[test]
fn partial_handshake_at_eof_closes() {
    let r = on_handshake_bytes(&[5, 2, 0], true);
    assert!(matches!(r.next, ConnState::Closed));
    assert!(r.output.is_empty());
}

#[test]
fn negotiation_picks_no_auth() {
    let offer = HandshakeRequest { methods: vec![0] };
    let r = on_negotiate(&offer, &[0]);
    assert_eq!(r.output, vec![5, 0]);
    assert!(matches!(r.next, ConnState::AwaitRequest));
}

#[test]
fn negotiation_prefers_server_order() {
    let offer = HandshakeRequest { methods: vec![0, 2] };
    let r = on_negotiate(&offer, &[2, 0]);
    assert_eq!(r.output, vec![5, 2]);
    assert!(matches!(r.next, ConnState::AwaitRequest));
}

#[test]
fn unmatched_offer_gets_sentinel_then_closes() {
    let offer = HandshakeRequest { methods: vec![5] };
    let r = on_negotiate(&offer, &[0]);
    assert_eq!(r.output, vec![5, 0xFF]);
    assert!(matches!(r.next, ConnState::Closed));
}

#[test]
fn sentinel_offer_is_never_selected() {
    let offer = HandshakeRequest { methods: vec![0xFF] };
    let r = on_negotiate(&offer, &[0xFF, 0]);
    assert_eq!(r.output, vec![5, 0xFF]);
    assert!(matches!(r.next, ConnState::Closed));
}

#[test]
fn connect_request_moves_to_connecting() {
    let r = on_request_bytes(&[5, 1, 0, 1, 1, 1, 1, 1, 0, 80], false);
    match r.next {
        ConnState::Connecting(q) => {
            assert_eq!(q.command, SockCommand::Connect);
            assert_eq!(q.dest.atyp, AddrType::V4);
            assert_eq!(q.dest.addr, vec![1, 1, 1, 1]);
            assert_eq!(q.dest.port, 80);
        },
        _ => panic!("expected connecting"),
    }
    assert_eq!(r.consumed, 10);
    assert!(r.output.is_empty());
}

#[test]
fn unknown_command_closes_without_reply() {
    let r = on_request_bytes(&[5, 9, 0, 1, 127, 0, 0, 1, 0, 80], false);
    assert!(matches!(r.next, ConnState::Closed));
    assert!(r.output.is_empty());
}

#[test]
fn bind_request_gets_command_not_supported() {
    let r = on_request_bytes(&[5, 2, 0, 1, 10, 0, 0, 1, 0, 80], false);
    assert!(matches!(r.next, ConnState::Closed));
    assert_eq!(r.output, vec![5, 7, 0, 1, 0, 0, 0, 0, 0, 0]);
}

#[test]
fn partial_request_waits_then_closes_at_eof() {
    let live = on_request_bytes(&[5, 1, 0, 3, 10, b'g'], false);
    assert!(matches!(live.next, ConnState::AwaitRequest));
    assert_eq!(live.consumed, 0);
    let ended = on_request_bytes(&[5, 1, 0, 3, 10, b'g'], true);
    assert!(matches!(ended.next, ConnState::Closed));
    assert!(ended.output.is_empty());
}

#[test]
fn successful_connect_replies_success_and_relays() {
    let bound = Destination { atyp: AddrType::V4, addr: vec![192, 168, 0, 7], port: 51000 };
    let r = on_connect_outcome(ConnectOutcome::Connected(bound));
    assert!(matches!(r.next, ConnState::Relaying));
    assert_eq!(r.output.len(), 10);
    assert_eq!(r.output[0], 5);
    assert_eq!(r.output[1], 0);
    assert_eq!(&r.output[4..8], &[192, 168, 0, 7]);
}

#[test]
fn successful_v6_connect_replies_success() {
    let bound = Destination {
        atyp: AddrType::V6,
        addr: vec![0, 0, 0, 0, 0, 0, 0, 0, 0, 0, 0, 0, 0, 0, 0, 1],
        port: 443,
    };
    let r = on_connect_outcome(ConnectOutcome::Connected(bound));
    assert!(matches!(r.next, ConnState::Relaying));
    assert_eq!(r.output.len(), 22);
    assert_eq!(&r.output[..2], &[5, 0]);
}

#[test]
fn successful_domain_connect_replies_success() {
    let bound = Destination { atyp: AddrType::Domain, addr: b"proxy.local".to_vec(), port: 80 };
    let r = on_connect_outcome(ConnectOutcome::Connected(bound));
    assert!(matches!(r.next, ConnState::Relaying));
    assert_eq!(&r.output[..2], &[5, 0]);
    assert_eq!(r.output.len(), 4 + 1 + 11 + 2);
}

#[test]
fn connect_failures_map_to_reply_codes() {
    let cases = [
        (ConnectFailure::ResolutionFailed, 4u8),
        (ConnectFailure::Refused, 5),
        (ConnectFailure::NetworkUnreachable, 3),
        (ConnectFailure::HostUnreachable, 4),
        (ConnectFailure::TimedOut, 6),
        (ConnectFailure::Other, 1),
    ];
    for (failure, code) in cases {
        let r = on_connect_outcome(ConnectOutcome::Failed(failure));
        assert!(matches!(r.next, ConnState::Closed));
        assert_eq!(r.output, vec![5, code, 0, 1, 0, 0, 0, 0, 0, 0]);
    }
}

#[test]
fn relay_end_closes() {
    assert!(matches!(on_relay_end(), ConnState::Closed));
}

#[test]
fn proxy_config_holds_its_parts() {
    let c = ProxyConfig::new(1080, "0.0.0.0".to_string(), vec![0], Some(10_000));
    assert_eq!(c.port, 1080);
    assert_eq!(c.ip, "0.0.0.0");
    assert_eq!(c.auth_methods, vec![0]);
    assert_eq!(c.timeout_ms, Some(10_000));
}
