//! Session tests: greeting, handshake, the three request flows, and the
//! UDP relay front-end.

use socks5_client::addr::{numeric_endpoint, TargetAddr};
use socks5_client::client::{Request, SessionState, Socks5Client};
use socks5_client::codec::RequestType;
use socks5_client::datagram::Socks5Datagram;
use socks5_client::error::Socks5Error;
use socks5_client::listener::Socks5Listener;
use socks5_client::method::{Method, NoAuthentication};
use socks5_client::stream::Socks5Stream;

type Client = Socks5Client<NoAuthentication>;

fn ready_client() -> Client {
    // The server's greeting reply selects the offered no-auth method.
    Socks5Client::connect(NoAuthentication::new(), 0x05, 0x00).unwrap()
}

#[test]
fn greeting_offers_one_method() {
    assert_eq!(Client::greeting(), vec![0x05, 0x01, 0x00]);
    assert_eq!(NoAuthentication::code(), 0x00);
}

#[test]
fn connect_succeeds_on_accepting_reply() {
    let client = ready_client();
    assert_eq!(client.current_state(), SessionState::Ready);
}

#[test]
fn connect_rejects_wrong_version() {
    let r = Client::connect(NoAuthentication::new(), 0x04, 0x00);
    assert!(matches!(
        r,
        Err(Socks5Error::InvalidResponseVersion {
            expected: 0x05,
            actual: 0x04
        })
    ));
}

#[test]
fn server_rejecting_method_leaves_no_session() {
    let r = Client::connect(NoAuthentication::new(), 0x05, 0xff);
    assert!(matches!(r, Err(Socks5Error::NoAcceptableMethod)));
}

#[test]
fn connect_to_ipv4_flow() {
    let mut client = ready_client();
    let target = TargetAddr::ipv4(127, 0, 0, 1, 2000);
    let request = client
        .send_request(Request::new(RequestType::Connect, target.clone()))
        .unwrap();
    assert_eq!(
        request,
        vec![0x05, 0x01, 0x00, 0x01, 0x7f, 0x00, 0x00, 0x01, 0x07, 0xd0]
    );
    let reply = vec![0x05, 0x00, 0x00, 0x01, 0x7f, 0x00, 0x00, 0x01, 0x1f, 0x90];
    let bound = client.recv_reply(&reply).unwrap();
    assert_eq!(bound, TargetAddr::ipv4(127, 0, 0, 1, 8080));
    assert_eq!(client.current_state(), SessionState::Tunneling);
    let stream = Socks5Stream::new(client, target.clone());
    assert_eq!(stream.peer_addr(), target);
}

#[test]
fn requests_start_with_the_version_byte() {
    let mut client = ready_client();
    let request = client
        .send_request(Request::new(
            RequestType::Connect,
            TargetAddr::domain(b"example.com".to_vec(), 80),
        ))
        .unwrap();
    assert_eq!(request[0], 0x05);
}

#[test]
fn overlong_domain_fails_before_anything_is_emitted() {
    let mut client = ready_client();
    let request = Request::new(RequestType::Connect, TargetAddr::domain(vec![b'a'; 256], 80));
    assert_eq!(client.send_request(request), Err(Socks5Error::DomainTooLong));
    // Nothing went out and the session is still usable.
    assert_eq!(client.current_state(), SessionState::Ready);
}

#[test]
fn host_unreachable_reply_fails_the_session() {
    let mut client = ready_client();
    client
        .send_request(Request::new(
            RequestType::Connect,
            TargetAddr::ipv4(10, 1, 2, 3, 80),
        ))
        .unwrap();
    let reply = vec![0x05, 0x04, 0x00, 0x01, 0x00, 0x00, 0x00, 0x00, 0x00, 0x00];
    assert_eq!(client.recv_reply(&reply), Err(Socks5Error::HostUnreachable));
    assert_eq!(client.current_state(), SessionState::Failed);
}

#[test]
fn bind_flow_accepts_one_inbound_peer() {
    let mut client = ready_client();
    client
        .send_request(Request::new(
            RequestType::Bind,
            TargetAddr::ipv4(10, 0, 0, 2, 12345),
        ))
        .unwrap();
    let first = vec![0x05, 0x00, 0x00, 0x01, 0x0a, 0x00, 0x00, 0x01, 0x22, 0xb8];
    let bind_addr = client.recv_reply(&first).unwrap();
    assert_eq!(bind_addr, TargetAddr::ipv4(10, 0, 0, 1, 8888));
    assert_eq!(client.current_state(), SessionState::Bound);

    let listener = Socks5Listener::new(client, bind_addr.clone());
    assert_eq!(listener.bind_addr(), bind_addr);

    let second = vec![0x05, 0x00, 0x00, 0x01, 0x0a, 0x00, 0x00, 0x02, 0x30, 0x39];
    let stream = listener.accept(&second).unwrap();
    assert_eq!(stream.peer_addr(), TargetAddr::ipv4(10, 0, 0, 2, 12345));
}

#[test]
fn accept_propagates_a_failed_second_reply() {
    let mut client = ready_client();
    client
        .send_request(Request::new(
            RequestType::Bind,
            TargetAddr::ipv4(10, 0, 0, 2, 12345),
        ))
        .unwrap();
    let first = vec![0x05, 0x00, 0x00, 0x01, 0x0a, 0x00, 0x00, 0x01, 0x22, 0xb8];
    let bind_addr = client.recv_reply(&first).unwrap();
    let listener = Socks5Listener::new(client, bind_addr);
    let second = vec![0x05, 0x05, 0x00, 0x01, 0x00, 0x00, 0x00, 0x00, 0x00, 0x00];
    assert_eq!(
        listener.accept(&second).err(),
        Some(Socks5Error::ConnectionRefused)
    );
}

fn associated_client() -> Client {
    let mut client = ready_client();
    client
        .send_request(Request::new(
            RequestType::UdpAssociate,
            TargetAddr::ipv4(0, 0, 0, 0, 0),
        ))
        .unwrap();
    // The reply advertises the relay endpoint 203.0.113.5:9000.
    let reply = vec![0x05, 0x00, 0x00, 0x01, 0xcb, 0x00, 0x71, 0x05, 0x23, 0x28];
    let relay = client.recv_reply(&reply).unwrap();
    assert_eq!(relay, TargetAddr::ipv4(203, 0, 113, 5, 9000));
    assert_eq!(client.current_state(), SessionState::Associated);
    client
}

#[test]
fn udp_associate_flow_wraps_and_unwraps_datagrams() {
    let mut client = associated_client();
    let relay = TargetAddr::ipv4(203, 0, 113, 5, 9000);
    client.register_endpoints(relay.clone()).unwrap();
    assert_eq!(client.current_state(), SessionState::Relaying);

    let endpoint = Socks5Datagram::new(client);
    let (packed, to) = endpoint
        .send_to(&b"hello".to_vec(), &TargetAddr::ipv4(1, 2, 3, 4, 7878))
        .unwrap();
    assert_eq!(to, relay);
    assert_eq!(
        packed,
        vec![0x00, 0x00, 0x00, 0x01, 0x01, 0x02, 0x03, 0x04, 0x1e, 0xc6, b'h', b'e', b'l', b'l', b'o']
    );

    let inbound = vec![
        0x00, 0x00, 0x00, 0x01, 0x01, 0x02, 0x03, 0x04, 0x1e, 0xc6, b'w', b'o', b'r', b'l', b'd',
    ];
    let (from, payload) = endpoint.recv_from(&inbound).unwrap();
    assert_eq!(from, TargetAddr::ipv4(1, 2, 3, 4, 7878));
    assert_eq!(payload, b"world".to_vec());
}

#[test]
fn udp_before_registration_is_rejected() {
    let client = associated_client();
    assert_eq!(
        client
            .send_to(&b"hello".to_vec(), &TargetAddr::ipv4(1, 2, 3, 4, 7878))
            .err(),
        Some(Socks5Error::DatagramSocketNotRegistered)
    );
    assert_eq!(
        client.recv_from(&vec![0x00, 0x00, 0x00, 0x01, 0, 0, 0, 0, 0, 0]).err(),
        Some(Socks5Error::DatagramSocketNotRegistered)
    );
}

#[test]
fn udp_send_to_overlong_domain_fails_first() {
    // Packing is attempted before the relay lookup, so the domain error
    // wins even while nothing is registered.
    let client = associated_client();
    assert_eq!(
        client
            .send_to(&b"x".to_vec(), &TargetAddr::domain(vec![b'd'; 256], 1))
            .err(),
        Some(Socks5Error::DomainTooLong)
    );
}

#[test]
fn target_addresses_compare_structurally() {
    assert_eq!(
        TargetAddr::ipv4(1, 2, 3, 4, 80),
        TargetAddr::ipv4(1, 2, 3, 4, 80)
    );
    assert_ne!(
        TargetAddr::ipv4(1, 2, 3, 4, 80),
        TargetAddr::ipv4(1, 2, 3, 4, 81)
    );
    assert_ne!(
        TargetAddr::ipv4(1, 2, 3, 4, 80),
        TargetAddr::domain(b"example.com".to_vec(), 80)
    );
    assert_eq!(
        TargetAddr::domain(b"a.example".to_vec(), 80),
        TargetAddr::domain(b"a.example".to_vec(), 80)
    );
    assert_ne!(
        TargetAddr::domain(b"a.example".to_vec(), 80),
        TargetAddr::domain(b"b.example".to_vec(), 80)
    );
}

#[test]
fn numeric_endpoint_resolves_only_domains() {
    let ip = TargetAddr::ipv4(9, 9, 9, 9, 53);
    assert_eq!(numeric_endpoint(ip.clone(), None), Ok(ip.clone()));

    let domain = TargetAddr::domain(b"example.com".to_vec(), 80);
    let resolved = TargetAddr::ipv4(93, 184, 216, 34, 80);
    assert_eq!(
        numeric_endpoint(domain.clone(), Some(resolved.clone())),
        Ok(resolved)
    );
    assert_eq!(
        numeric_endpoint(domain, None),
        Err(Socks5Error::InvalidTargetAddress)
    );
}

#[test]
fn default_no_authentication_has_no_relay() {
    let mut method = NoAuthentication::default();
    assert!(matches!(
        method.relay_endpoint(),
        Err(Socks5Error::DatagramSocketNotRegistered)
    ));
    method
        .register_endpoints(TargetAddr::ipv4(10, 0, 0, 1, 1080))
        .unwrap();
    assert_eq!(
        method.relay_endpoint().unwrap(),
        TargetAddr::ipv4(10, 0, 0, 1, 1080)
    );
}
