use mqtt::control::ConnectReturnCode;
use mqtt::packet::{ConnackPacket, ConnectPacket, PublishPacketRef, QoSWithPacketIdentifier};
use mqtt::{Encodable, TopicName};
use telemetry_node::client::{ConnectError, HandshakeState, PublishClient, PublishError};

fn connack_bytes(code: ConnectReturnCode) -> Vec<u8> {
    let packet = ConnackPacket::new(false, code);
    let mut buf = Vec::new();
    packet.encode(&mut buf).unwrap();
    buf
}

#[test]
fn accepted_connack_connects_the_client() {
    let mut client = PublishClient::new();
    assert_eq!(client.state, HandshakeState::Disconnected);
    let frame = client.connect_request("ESP", "user", "secret");
    assert!(!frame.is_empty());
    assert_eq!(client.state, HandshakeState::Connecting);
    let answer = connack_bytes(ConnectReturnCode::ConnectionAccepted);
    assert_eq!(client.process_connack(&answer), Ok(()));
    assert_eq!(client.state, HandshakeState::Connected);
}

#[test]
fn refused_connack_is_an_explicit_error() {
    // Accept code 5 ("not authorized") surfaces as an error instead of being
    // logged and ignored: the chosen, stricter policy.
    let mut client = PublishClient::new();
    let _ = client.connect_request("ESP", "user", "secret");
    let answer = connack_bytes(ConnectReturnCode::NotAuthorized);
    assert_eq!(client.process_connack(&answer), Err(ConnectError::Refused(5)));
    assert_eq!(client.state, HandshakeState::Disconnected);
}

#[test]
fn garbage_answer_is_malformed() {
    let mut client = PublishClient::new();
    let _ = client.connect_request("ESP", "user", "secret");
    let answer = vec![0xFFu8, 0x00, 0x00, 0x00];
    assert_eq!(client.process_connack(&answer), Err(ConnectError::Malformed));
    assert_eq!(client.state, HandshakeState::Disconnected);
}

#[test]
fn connect_frame_matches_the_wire_format() {
    let mut client = PublishClient::new();
    let frame = client.connect_request("ESP", "user", "secret");
    let mut expected_packet = ConnectPacket::new("ESP");
    expected_packet.set_clean_session(true);
    expected_packet.set_user_name(Some("user".to_string()));
    expected_packet.set_password(Some("secret".to_string()));
    let mut expected = Vec::new();
    expected_packet.encode(&mut expected).unwrap();
    assert_eq!(frame, expected);
}

fn connected_client() -> PublishClient {
    let mut client = PublishClient::new();
    let _ = client.connect_request("ESP", "user", "secret");
    let answer = connack_bytes(ConnectReturnCode::ConnectionAccepted);
    client.process_connack(&answer).unwrap();
    client
}

#[test]
fn publish_frame_matches_the_wire_format() {
    let client = connected_client();
    let frame = client.publish("sensors/dht11", b"[23.5, 61.2]").unwrap();
    let topic = TopicName::new("sensors/dht11".to_string()).unwrap();
    let expected_packet =
        PublishPacketRef::new(&topic, QoSWithPacketIdentifier::Level0, b"[23.5, 61.2]");
    let mut expected = Vec::new();
    expected_packet.encode(&mut expected).unwrap();
    assert_eq!(frame, expected);
}

#[test]
fn wildcard_and_empty_topics_are_rejected() {
    let client = connected_client();
    assert_eq!(client.publish("a/+", b"x"), Err(PublishError::InvalidTopic));
    assert_eq!(client.publish("a/#", b"x"), Err(PublishError::InvalidTopic));
    assert_eq!(client.publish("", b"x"), Err(PublishError::InvalidTopic));
    assert!(client.publish("a/b", b"x").is_ok());
}
