use shs_async::codec::{Hello, Sealed};
use shs_async::handshake::{ClientHandshake, ServerHandshake};
use shs_async::keys::{
    ClientPublicKey, ClientSecretKey, HandshakeError, NetworkId, ServerPublicKey, ServerSecretKey,
};
use shs_async::nonce::NonceGen;
use shs_async::session::HandshakeOutcome;

type Outcome = Result<HandshakeOutcome, HandshakeError>;

fn longterm_keypair() -> ([u8; 32], [u8; 64]) {
    let (pk, sk) = ssb_crypto::generate_longterm_keypair();
    (pk.0, sk.0)
}

fn no_tamper(_k: usize, _m: &mut Vec<u8>) {}

/// Runs both roles against each other in memory. `tamper` sees each message
/// (0: ClientHello, 1: ServerHello, 2: ClientAuth, 3: ServerAccept) before
/// it is delivered; a side that has failed sends nothing more, so its peer
/// reads an empty frame.
fn run(
    client_net: [u8; 32],
    server_net: [u8; 32],
    server_pk_for_client: Option<[u8; 32]>,
    tamper: fn(usize, &mut Vec<u8>),
) -> (Outcome, Outcome) {
    let (c_pk, c_sk) = longterm_keypair();
    let (s_pk, s_sk) = longterm_keypair();
    let given_pk = server_pk_for_client.unwrap_or(s_pk);
    let client = ClientHandshake::start(
        NetworkId(client_net),
        ClientPublicKey(c_pk),
        ClientSecretKey(c_sk),
        ServerPublicKey(given_pk),
    );
    let server = ServerHandshake::start(NetworkId(server_net), ServerPublicKey(s_pk), ServerSecretKey(s_sk));

    let mut m0 = client.hello();
    tamper(0, &mut m0);
    let server = match server.receive_client_hello(&m0) {
        Ok(s) => s,
        Err(e) => {
            let ce = client.receive_server_hello(&[]).err().unwrap();
            return (Err(ce), Err(e));
        }
    };
    let mut m1 = server.hello();
    tamper(1, &mut m1);
    let server = server.derive_secrets();
    let client = match client.receive_server_hello(&m1) {
        Ok(c) => c,
        Err(e) => {
            let se = match server {
                Ok(s) => s.receive_client_auth(&[]).err().unwrap(),
                Err(se) => se,
            };
            return (Err(e), Err(se));
        }
    };
    let server = match server {
        Ok(s) => s,
        Err(e) => {
            let ce = client.receive_server_accept(&[]).err().unwrap();
            return (Err(ce), Err(e));
        }
    };
    let mut m2 = client.client_auth.clone();
    tamper(2, &mut m2);
    let done = match server.receive_client_auth(&m2) {
        Ok(d) => d,
        Err(e) => {
            let ce = client.receive_server_accept(&[]).err().unwrap();
            return (Err(ce), Err(e));
        }
    };
    let mut m3 = done.server_accept.clone();
    tamper(3, &mut m3);
    (client.receive_server_accept(&m3), Ok(done.outcome))
}

fn main_net() -> [u8; 32] {
    NetworkId::main_net().0
}

#[test]
fn basic() {
    let (c_out, s_out) = run(main_net(), main_net(), None, no_tamper);
    let mut c_out = c_out.unwrap();
    let mut s_out = s_out.unwrap();

    assert_eq!(c_out.write_key, s_out.read_key);
    assert_eq!(c_out.read_key, s_out.write_key);
    assert_eq!(c_out.write_noncegen.next(), s_out.read_noncegen.next());
    assert_eq!(c_out.read_noncegen.next(), s_out.write_noncegen.next());
}

#[test]
fn reject_wrong_server_pk() {
    let (c_out, s_out) = run(main_net(), main_net(), Some([0u8; 32]), no_tamper);
    assert!(c_out.is_err());
    assert!(s_out.is_err());
    assert!(matches!(
        c_out,
        Err(HandshakeError::ServerAcceptFailure) | Err(HandshakeError::KeyConversionFailure)
    ));

    let (other_pk, _sk) = longterm_keypair();
    let (c_out, s_out) = run(main_net(), main_net(), Some(other_pk), no_tamper);
    assert!(c_out.is_err());
    assert!(s_out.is_err());
}

#[test]
fn happy_path_transcript_matches() {
    let (c_out, s_out) = run(main_net(), main_net(), None, no_tamper);
    let mut c = c_out.unwrap();
    let mut s = s_out.unwrap();
    let mut cv: Vec<u8> = Vec::new();
    cv.extend_from_slice(&c.write_key);
    cv.extend_from_slice(&c.write_noncegen.next());
    cv.extend_from_slice(&c.read_key);
    cv.extend_from_slice(&c.read_noncegen.next());
    let mut sv: Vec<u8> = Vec::new();
    sv.extend_from_slice(&s.read_key);
    sv.extend_from_slice(&s.read_noncegen.next());
    sv.extend_from_slice(&s.write_key);
    sv.extend_from_slice(&s.write_noncegen.next());
    assert_eq!(cv.len(), 112);
    assert_eq!(cv, sv);
    assert_ne!(c.write_key, c.read_key);
}

#[test]
fn unrelated_server_key_fails_both_sides() {
    let (other_pk, _sk) = longterm_keypair();
    let (c_out, s_out) = run(main_net(), main_net(), Some(other_pk), no_tamper);
    assert!(matches!(s_out, Err(HandshakeError::ClientAuthFailure)));
    assert!(matches!(c_out, Err(HandshakeError::TransportError)));
}

#[test]
fn mismatched_network_id() {
    let (c_out, s_out) = run([1u8; 32], [2u8; 32], None, no_tamper);
    assert!(matches!(s_out, Err(HandshakeError::HelloAuthFailure)));
    assert!(matches!(c_out, Err(HandshakeError::TransportError)));
}

fn cut_client_auth(k: usize, m: &mut Vec<u8>) {
    if k == 2 {
        m.truncate(111);
    }
}

#[test]
fn truncated_client_auth() {
    let (c_out, s_out) = run(main_net(), main_net(), None, cut_client_auth);
    assert!(matches!(s_out, Err(HandshakeError::TransportError)));
    assert!(matches!(c_out, Err(HandshakeError::TransportError)));
}

fn cut_client_hello(k: usize, m: &mut Vec<u8>) {
    if k == 0 {
        m.pop();
    }
}

fn cut_server_hello(k: usize, m: &mut Vec<u8>) {
    if k == 1 {
        m.pop();
    }
}

fn cut_server_accept(k: usize, m: &mut Vec<u8>) {
    if k == 3 {
        m.pop();
    }
}

#[test]
fn truncated_messages_are_transport_errors() {
    let (c_out, s_out) = run(main_net(), main_net(), None, cut_client_hello);
    assert!(matches!(s_out, Err(HandshakeError::TransportError)));
    assert!(c_out.is_err());
    let (c_out, s_out) = run(main_net(), main_net(), None, cut_server_hello);
    assert!(matches!(c_out, Err(HandshakeError::TransportError)));
    assert!(s_out.is_err());
    let (c_out, _s_out) = run(main_net(), main_net(), None, cut_server_accept);
    assert!(matches!(c_out, Err(HandshakeError::TransportError)));
}

fn flip_server_accept(k: usize, m: &mut Vec<u8>) {
    if k == 3 {
        m[0] ^= 1;
    }
}

#[test]
fn bit_flipped_server_accept() {
    let (c_out, s_out) = run(main_net(), main_net(), None, flip_server_accept);
    assert!(matches!(c_out, Err(HandshakeError::ServerAcceptFailure)));
    assert!(s_out.is_ok());
}

fn flip_client_hello_mac(k: usize, m: &mut Vec<u8>) {
    if k == 0 {
        m[0] ^= 1;
    }
}

fn flip_client_hello_key(k: usize, m: &mut Vec<u8>) {
    if k == 0 {
        m[40] ^= 0x80;
    }
}

fn flip_server_hello(k: usize, m: &mut Vec<u8>) {
    if k == 1 {
        m[63] ^= 4;
    }
}

fn flip_client_auth(k: usize, m: &mut Vec<u8>) {
    if k == 2 {
        m[111] ^= 1;
    }
}

#[test]
fn bit_flips_are_detected() {
    let (_c, s_out) = run(main_net(), main_net(), None, flip_client_hello_mac);
    assert!(matches!(s_out, Err(HandshakeError::HelloAuthFailure)));
    let (_c, s_out) = run(main_net(), main_net(), None, flip_client_hello_key);
    assert!(matches!(s_out, Err(HandshakeError::HelloAuthFailure)));
    let (c_out, _s) = run(main_net(), main_net(), None, flip_server_hello);
    assert!(matches!(c_out, Err(HandshakeError::HelloAuthFailure)));
    let (_c, s_out) = run(main_net(), main_net(), None, flip_client_auth);
    assert!(matches!(s_out, Err(HandshakeError::ClientAuthFailure)));
}

#[test]
fn oversized_frame_is_bad_length() {
    let (s_pk, s_sk) = longterm_keypair();
    let server = ServerHandshake::start(NetworkId(main_net()), ServerPublicKey(s_pk), ServerSecretKey(s_sk));
    let r = server.receive_client_hello(&[0u8; 65]);
    assert!(matches!(r, Err(HandshakeError::BadLength)));
}

#[test]
fn hello_round_trip() {
    let h = Hello { mac: [7u8; 32], eph_pk: [9u8; 32] };
    let bytes = h.to_bytes();
    assert_eq!(bytes.len(), 64);
    assert_eq!(&bytes[..32], &[7u8; 32]);
    assert_eq!(Hello::from_bytes(&bytes).unwrap(), h);
    assert!(matches!(Hello::from_bytes(&bytes[..63]), Err(HandshakeError::BadLength)));
}

#[test]
fn sealed_round_trip() {
    let bytes = vec![5u8; 112];
    let s = Sealed::from_bytes(&bytes, 112).unwrap();
    assert_eq!(s.to_bytes(), bytes);
    assert!(matches!(Sealed::from_bytes(&bytes, 80), Err(HandshakeError::BadLength)));
}

#[test]
fn hello_mac_depends_on_network() {
    let key = [3u8; 32];
    let a = Hello::new(&key, &NetworkId([1u8; 32]));
    let b = Hello::new(&key, &NetworkId([2u8; 32]));
    assert_ne!(a.mac, b.mac);
    assert_ne!(a.mac, key);
    assert!(a.verify(&NetworkId([1u8; 32])).is_ok());
    assert!(matches!(a.verify(&NetworkId([2u8; 32])), Err(HandshakeError::HelloAuthFailure)));
}

#[test]
fn nonce_counts_big_endian() {
    let mut start = [0u8; 24];
    start[22] = 255;
    start[23] = 255;
    let mut g = NonceGen::with_starting_nonce(start);
    assert_eq!(g.next(), start);
    let mut expected = [0u8; 24];
    expected[21] = 1;
    assert_eq!(g.next(), expected);
    expected[23] = 1;
    assert_eq!(g.next(), expected);
}

#[test]
fn nonce_wraps_at_top() {
    let mut g = NonceGen::with_starting_nonce([255u8; 24]);
    assert_eq!(g.next(), [255u8; 24]);
    assert_eq!(g.next(), [0u8; 24]);
}

#[test]
fn nonce_seed_is_mac_prefix() {
    let net = NetworkId(main_net());
    let key = [11u8; 32];
    let g = NonceGen::new(&key, &net);
    let h = Hello::new(&key, &net);
    assert_eq!(&g.next_nonce[..], &h.mac[..24]);
}
