//! Minimal publish-protocol client: framing and handshake state.
//!
//! The client speaks the standard publish protocol's CONNECT, CONNACK and
//! PUBLISH packets over a byte stream that the embedding program owns. This
//! module builds the outgoing frames, reads the handshake answer, and tracks
//! the handshake state; the bytes travel outside.
//!
//! A connect answer whose accept code is not "accepted" is surfaced as an
//! explicit error, never treated as success.
use vstd::prelude::*;
use mqtt::Decodable;
use mqtt::Encodable;

verus! {

/// The CONNECT frame for these credentials: protocol level 3.1.1, clean
/// session set, user name and password attached, as the wire format defines
/// it. A pure function of the three strings.
pub uninterp spec fn connect_frame(
    client_id: Seq<char>,
    username: Seq<char>,
    password: Seq<char>,
) -> Seq<u8>;

/// The PUBLISH frame for a topic and payload at the fire-and-forget quality
/// of service: no packet identifier, no acknowledgement. A pure function of
/// topic and payload.
pub uninterp spec fn publish_frame(topic: Seq<char>, payload: Seq<u8>) -> Seq<u8>;

/// What parsing a CONNACK frame from these bytes yields: its accept code, or
/// nothing when no CONNACK starts the bytes. A pure function of the bytes.
pub uninterp spec fn connack_code(bytes: Seq<u8>) -> Option<u8>;

/// UTF-8 length in bytes of one character.
pub open spec fn char_utf8_len(c: char) -> nat {
    if (c as u32) < 0x80 {
        1
    } else if (c as u32) < 0x800 {
        2
    } else if (c as u32) < 0x10000 {
        3
    } else {
        4
    }
}

/// UTF-8 length in bytes of a string of these characters.
pub open spec fn utf8_len(s: Seq<char>) -> nat
    decreases s.len(),
{
    if s.len() == 0 {
        0
    } else {
        char_utf8_len(s[0]) + utf8_len(s.drop_first())
    }
}

/// A string short enough to travel as one length-prefixed protocol field.
pub open spec fn field_fits(s: Seq<char>) -> bool {
    utf8_len(s) <= 65535
}

/// A well-formed topic name: nonempty, at most one protocol field long, and
/// free of the subscription wildcards.
pub open spec fn topic_ok(s: Seq<char>) -> bool {
    &&& s.len() > 0
    &&& field_fits(s)
    &&& forall|i: int| 0 <= i < s.len() ==> s[i] != '#' && s[i] != '+'
}

/// Largest payload the fixed header's remaining-length field leaves room for
/// beside a maximal topic field.
pub const MAX_PAYLOAD_LEN: usize = 0x0FFE_0000;

/// Relies on mqtt::packet::ConnectPacket (clean session set, user name and
/// password attached) written with mqtt::Encodable::encode into a Vec, which
/// cannot fail; that crate asserts each string field fits in 65535 bytes, so
/// longer credentials are excluded here.
#[verifier::external_body]
fn encode_connect_frame(client_id: &str, username: &str, password: &str) -> (r: Vec<u8>)
    requires
        field_fits(client_id@),
        field_fits(username@),
        field_fits(password@),
    ensures
        r@ == connect_frame(client_id@, username@, password@),
{
    let mut packet = mqtt::packet::ConnectPacket::new(client_id);
    packet.set_clean_session(true);
    packet.set_user_name(Some(username.to_string()));
    packet.set_password(Some(password.to_string()));
    let mut buf: Vec<u8> = Vec::new();
    packet.encode(&mut buf).expect("writing a frame to a Vec cannot fail");
    buf
}

/// Relies on mqtt::packet::ConnackPacket::decode from a byte slice and
/// mqtt::control::ConnectReturnCode::to_u8: the accept code of the CONNACK
/// frame that starts the bytes, or nothing when none does.
#[verifier::external_body]
fn decode_connack_frame(bytes: &[u8]) -> (r: Option<u8>)
    ensures
        r == connack_code(bytes@),
{
    let mut reader: &[u8] = bytes;
    match mqtt::packet::ConnackPacket::decode(&mut reader) {
        Ok(packet) => Some(packet.connect_return_code().to_u8()),
        Err(_) => None,
    }
}

/// Relies on mqtt::TopicName::new, which rejects exactly an empty name, a
/// name over 65535 UTF-8 bytes, and the wildcards '#' and '+'; and on
/// mqtt::packet::PublishPacketRef at quality-of-service level zero written
/// with mqtt::Encodable::encode into a Vec, which cannot fail. The payload
/// bound keeps the remaining-length field of the fixed header in range.
#[verifier::external_body]
fn encode_publish_frame(topic: &str, payload: &[u8]) -> (r: Option<Vec<u8>>)
    requires
        payload@.len() <= MAX_PAYLOAD_LEN,
    ensures
        r is Some <==> topic_ok(topic@),
        r matches Some(v) ==> v@ == publish_frame(topic@, payload@),
{
    let name = match mqtt::TopicName::new(topic) {
        Ok(n) => n,
        Err(_) => {
            return None;
        },
    };
    let packet = mqtt::packet::PublishPacketRef::new(
        &name,
        mqtt::packet::QoSWithPacketIdentifier::Level0,
        payload,
    );
    let mut buf: Vec<u8> = Vec::new();
    packet.encode(&mut buf).expect("writing a frame to a Vec cannot fail");
    Some(buf)
}

/// Where the connect handshake stands.
#[derive(Clone, Copy, PartialEq, Eq, Structural, Debug)]
pub enum HandshakeState {
    /// No handshake begun, or the last one failed.
    Disconnected,
    /// The CONNECT frame is built; its answer is awaited.
    Connecting,
    /// An accepted answer arrived; publishing is allowed.
    Connected,
}

/// Why a connect handshake failed.
#[derive(Clone, Copy, PartialEq, Eq, Structural, Debug)]
pub enum ConnectError {
    /// The answer was no CONNACK frame at all.
    Malformed,
    /// The answer carried this non-accepted code.
    Refused(u8),
}

/// Why a publish was not framed.
#[derive(Clone, Copy, PartialEq, Eq, Structural, Debug)]
pub enum PublishError {
    /// The topic was empty, too long, or held a wildcard.
    InvalidTopic,
}

/// The protocol side of one connection: handshake state and framing. The
/// byte stream itself stays with the embedding program, which writes the
/// frames this client builds and hands back the bytes it reads.
pub struct PublishClient {
    pub state: HandshakeState,
}

impl PublishClient {
    /// A fresh client, no handshake begun.
    pub fn new() -> (c: Self)
        ensures
            c.state == HandshakeState::Disconnected,
    {
        PublishClient { state: HandshakeState::Disconnected }
    }

    /// Open the handshake: the CONNECT frame to write, with clean session and
    /// these credentials. Fields longer than one length-prefixed protocol
    /// field are excluded: the wire format cannot carry them.
    pub fn connect_request(&mut self, client_id: &str, username: &str, password: &str) -> (frame:
        Vec<u8>)
        requires
            old(self).state == HandshakeState::Disconnected,
            field_fits(client_id@),
            field_fits(username@),
            field_fits(password@),
        ensures
            final(self).state == HandshakeState::Connecting,
            frame@ == connect_frame(client_id@, username@, password@),
    {
        self.state = HandshakeState::Connecting;
        encode_connect_frame(client_id, username, password)
    }

    /// Take the handshake answer. An accepted code connects the client; any
    /// other code, and an answer that is no CONNACK, is an explicit error and
    /// drops the handshake.
    pub fn process_connack(&mut self, answer: &[u8]) -> (r: Result<(), ConnectError>)
        requires
            old(self).state == HandshakeState::Connecting,
        ensures
            match connack_code(answer@) {
                Some(code) => if code == 0 {
                    r == Ok::<(), ConnectError>(()) && final(self).state == HandshakeState::Connected
                } else {
                    r == Err::<(), ConnectError>(ConnectError::Refused(code)) && final(self).state
                        == HandshakeState::Disconnected
                },
                None => r == Err::<(), ConnectError>(ConnectError::Malformed) && final(self).state
                    == HandshakeState::Disconnected,
            },
    {
        match decode_connack_frame(answer) {
            Some(code) => {
                if code == 0 {
                    self.state = HandshakeState::Connected;
                    Ok(())
                } else {
                    self.state = HandshakeState::Disconnected;
                    Err(ConnectError::Refused(code))
                }
            },
            None => {
                self.state = HandshakeState::Disconnected;
                Err(ConnectError::Malformed)
            },
        }
    }

    /// Frame one message for a connected client: the PUBLISH frame to write,
    /// at the fire-and-forget quality of service. Exactly the well-formed
    /// topics succeed.
    pub fn publish(&self, topic: &str, payload: &[u8]) -> (r: Result<Vec<u8>, PublishError>)
        requires
            self.state == HandshakeState::Connected,
            payload@.len() <= MAX_PAYLOAD_LEN,
        ensures
            r is Ok <==> topic_ok(topic@),
            r matches Ok(frame) ==> frame@ == publish_frame(topic@, payload@),
            r matches Err(e) ==> e == PublishError::InvalidTopic,
    {
        match encode_publish_frame(topic, payload) {
            Some(frame) => Ok(frame),
            None => Err(PublishError::InvalidTopic),
        }
    }
}

} // verus!
