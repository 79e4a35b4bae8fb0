//! The two roles of the handshake as state machines. Each step takes the
//! bytes that arrived from the peer and gives the next state, which holds
//! the bytes to send; the caller moves bytes over the stream.

use vstd::prelude::*;
use crate::bytes::{push_array, take32, take64};
use crate::codec::{
    check_frame, frame_error, hello_for, Hello, Sealed, CLIENT_AUTH_LEN, HELLO_LEN,
    SERVER_ACCEPT_LEN,
};
use crate::keys::{
    ClientEphPublicKey, ClientEphSecretKey, ClientPublicKey, ClientSecretKey, HandshakeError,
    NetworkId, ServerEphPublicKey, ServerEphSecretKey, ServerPublicKey, ServerSecretKey, SharedA,
    SharedB, SharedC,
};
use crate::nonce::NonceGen;
use crate::primitives::{
    client_eph_keypair, dh, dh_ed_point, dh_ed_point_of, dh_ed_scalar, dh_ed_scalar_of, dh_of,
    hmac_of, open, opened_of, seal, sealed_of, server_eph_keypair, sha256, sha256_of, sign,
    signature_of, signature_valid, verify_signature,
};
use crate::session::{
    client_outcome_of, outcome_view, server_outcome_of, session_key, HandshakeOutcome,
};

verus! {

/// What the client signs: `net ‖ server_pk ‖ sha256(a)`.
pub open spec fn client_sig_msg(net: Seq<u8>, server_pk: Seq<u8>, a: Seq<u8>) -> Seq<u8> {
    net + server_pk + sha256_of(a)
}

/// The key of the ClientAuth box: `sha256(net ‖ a ‖ b)`.
pub open spec fn client_auth_key(net: Seq<u8>, a: Seq<u8>, b: Seq<u8>) -> Seq<u8> {
    sha256_of(net + a + b)
}

/// What the server signs: `net ‖ client_sig ‖ client_pk ‖ sha256(a)`.
pub open spec fn server_sig_msg(
    net: Seq<u8>,
    client_sig: Seq<u8>,
    client_pk: Seq<u8>,
    a: Seq<u8>,
) -> Seq<u8> {
    net + client_sig + client_pk + sha256_of(a)
}

/// The key of the ServerAccept box: `sha256(net ‖ a ‖ b ‖ c)`.
pub open spec fn server_accept_key(net: Seq<u8>, a: Seq<u8>, b: Seq<u8>, c: Seq<u8>) -> Seq<u8> {
    sha256_of(net + a + b + c)
}

/// The ClientAuth message: the client's signature and key, sealed.
pub open spec fn client_auth_for(
    net: Seq<u8>,
    client_sig: Seq<u8>,
    client_pk: Seq<u8>,
    a: Seq<u8>,
    b: Seq<u8>,
) -> Seq<u8> {
    sealed_of(client_auth_key(net, a, b), client_sig + client_pk)
}

/// The ServerAccept message: the server's signature, sealed.
pub open spec fn server_accept_for(
    net: Seq<u8>,
    server_sk: Seq<u8>,
    client_sig: Seq<u8>,
    client_pk: Seq<u8>,
    a: Seq<u8>,
    b: Seq<u8>,
    c: Seq<u8>,
) -> Seq<u8> {
    sealed_of(
        server_accept_key(net, a, b, c),
        signature_of(server_sk, server_sig_msg(net, client_sig, client_pk, a)),
    )
}

/// A client that has chosen its ephemeral key and sends its Hello first.
pub struct ClientHandshake {
    pub net_id: NetworkId,
    pub pk: ClientPublicKey,
    pub sk: ClientSecretKey,
    pub server_pk: ServerPublicKey,
    pub eph_pk: ClientEphPublicKey,
    pub eph_sk: ClientEphSecretKey,
}

/// A client that has sent its ClientAuth and waits for the ServerAccept.
pub struct ClientAwaitAccept {
    pub hs: ClientHandshake,
    pub server_eph_pk: ServerEphPublicKey,
    pub shared_a: SharedA,
    pub shared_b: SharedB,
    pub shared_c: SharedC,
    pub client_sig: [u8; 64],
    pub client_auth: Vec<u8>,
}

/// What the client makes of the ServerHello `msg`: the server's ephemeral key
/// and the three shared secrets, or the error that ends the handshake.
pub open spec fn client_on_hello(hs: ClientHandshake, msg: Seq<u8>) -> Result<
    (Seq<u8>, Seq<u8>, Seq<u8>, Seq<u8>),
    HandshakeError,
> {
    if let Some(e) = frame_error(msg.len(), 64) {
        Err(e)
    } else {
        let mac = msg.subrange(0, 32);
        let e = msg.subrange(32, 64);
        if mac != hmac_of(hs.net_id.0@, e) {
            Err(HandshakeError::HelloAuthFailure)
        } else {
            match (
                dh_of(hs.eph_sk.0@, e),
                dh_ed_point_of(hs.eph_sk.0@, hs.server_pk.0@),
                dh_ed_scalar_of(hs.sk.0@, e),
            ) {
                (Some(a), Some(b), Some(c)) => Ok((e, a, b, c)),
                _ => Err(HandshakeError::KeyConversionFailure),
            }
        }
    }
}

/// Whether the ServerAccept `msg` is accepted by the client in state `st`.
pub open spec fn client_on_accept(st: ClientAwaitAccept, msg: Seq<u8>) -> Result<(), HandshakeError> {
    if let Some(e) = frame_error(msg.len(), 80) {
        Err(e)
    } else {
        let net = st.hs.net_id.0@;
        match opened_of(server_accept_key(net, st.shared_a.0@, st.shared_b.0@, st.shared_c.0@), msg) {
            None => Err(HandshakeError::ServerAcceptFailure),
            Some(sig) => if signature_valid(
                st.hs.server_pk.0@,
                sig,
                server_sig_msg(net, st.client_sig@, st.hs.pk.0@, st.shared_a.0@),
            ) {
                Ok(())
            } else {
                Err(HandshakeError::ServerAcceptFailure)
            },
        }
    }
}

/// `v` as a vector.
fn vec_of(v: &[u8; 32]) -> (r: Vec<u8>)
    ensures
        r@ == v@,
{
    let mut r: Vec<u8> = Vec::new();
    push_array(&mut r, v);
    assert(r@ =~= v@);
    r
}

/// The ClientAuth key `sha256(net ‖ a ‖ b)`.
fn auth_key(net_id: &NetworkId, a: &SharedA, b: &SharedB) -> (r: [u8; 32])
    ensures
        r@ == client_auth_key(net_id.0@, a.0@, b.0@),
{
    let mut v: Vec<u8> = Vec::new();
    push_array(&mut v, &net_id.0);
    push_array(&mut v, &a.0);
    push_array(&mut v, &b.0);
    assert(v@ =~= net_id.0@ + a.0@ + b.0@);
    sha256(&v)
}

/// The ServerAccept key `sha256(net ‖ a ‖ b ‖ c)`.
fn accept_key(net_id: &NetworkId, a: &SharedA, b: &SharedB, c: &SharedC) -> (r: [u8; 32])
    ensures
        r@ == server_accept_key(net_id.0@, a.0@, b.0@, c.0@),
{
    let mut v: Vec<u8> = Vec::new();
    push_array(&mut v, &net_id.0);
    push_array(&mut v, &a.0);
    push_array(&mut v, &b.0);
    push_array(&mut v, &c.0);
    assert(v@ =~= net_id.0@ + a.0@ + b.0@ + c.0@);
    sha256(&v)
}

/// The message the client signs.
fn client_sig_bytes(net_id: &NetworkId, server_pk: &ServerPublicKey, a: &SharedA) -> (r: Vec<u8>)
    ensures
        r@ == client_sig_msg(net_id.0@, server_pk.0@, a.0@),
{
    let ha = sha256(&vec_of(&a.0));
    let mut v: Vec<u8> = Vec::new();
    push_array(&mut v, &net_id.0);
    push_array(&mut v, &server_pk.0);
    push_array(&mut v, &ha);
    assert(v@ =~= net_id.0@ + server_pk.0@ + ha@);
    v
}

/// The message the server signs.
fn server_sig_bytes(
    net_id: &NetworkId,
    client_sig: &[u8; 64],
    client_pk: &ClientPublicKey,
    a: &SharedA,
) -> (r: Vec<u8>)
    ensures
        r@ == server_sig_msg(net_id.0@, client_sig@, client_pk.0@, a.0@),
{
    let ha = sha256(&vec_of(&a.0));
    let mut v: Vec<u8> = Vec::new();
    push_array(&mut v, &net_id.0);
    push_array(&mut v, client_sig);
    push_array(&mut v, &client_pk.0);
    push_array(&mut v, &ha);
    assert(v@ =~= net_id.0@ + client_sig@ + client_pk.0@ + ha@);
    v
}

impl ClientHandshake {
    /// A client with the given identity and ephemeral key pair.
    pub fn new(
        net_id: NetworkId,
        pk: ClientPublicKey,
        sk: ClientSecretKey,
        server_pk: ServerPublicKey,
        eph_pk: ClientEphPublicKey,
        eph_sk: ClientEphSecretKey,
    ) -> (r: ClientHandshake)
        ensures
            r == (ClientHandshake { net_id, pk, sk, server_pk, eph_pk, eph_sk }),
    {
        ClientHandshake { net_id, pk, sk, server_pk, eph_pk, eph_sk }
    }

    /// A client with the given identity and a fresh ephemeral key pair.
    pub fn start(
        net_id: NetworkId,
        pk: ClientPublicKey,
        sk: ClientSecretKey,
        server_pk: ServerPublicKey,
    ) -> (r: ClientHandshake)
        ensures
            r.net_id == net_id,
            r.pk == pk,
            r.sk == sk,
            r.server_pk == server_pk,
    {
        let (eph_pk, eph_sk) = client_eph_keypair();
        ClientHandshake::new(
            net_id,
            pk,
            sk,
            server_pk,
            ClientEphPublicKey(eph_pk),
            ClientEphSecretKey(eph_sk),
        )
    }

    /// The ClientHello to send.
    pub fn hello(&self) -> (r: Vec<u8>)
        ensures
            r@ == hello_for(self.net_id.0@, self.eph_pk.0@),
    {
        Hello::new(&self.eph_pk.0, &self.net_id).to_bytes()
    }

    /// Takes the ServerHello: checks its MAC, derives the three shared
    /// secrets and prepares the ClientAuth.
    pub fn receive_server_hello(self, msg: &[u8]) -> (r: Result<ClientAwaitAccept, HandshakeError>)
        ensures
            r matches Err(e) ==> client_on_hello(self, msg@) == Err::<
                (Seq<u8>, Seq<u8>, Seq<u8>, Seq<u8>),
                HandshakeError,
            >(e),
            r matches Ok(st) ==> {
                &&& client_on_hello(self, msg@) == Ok::<_, HandshakeError>(
                    (st.server_eph_pk.0@, st.shared_a.0@, st.shared_b.0@, st.shared_c.0@),
                )
                &&& st.hs == self
                &&& st.client_sig@ == signature_of(
                    self.sk.0@,
                    client_sig_msg(self.net_id.0@, self.server_pk.0@, st.shared_a.0@),
                )
                &&& st.client_auth@ == client_auth_for(
                    self.net_id.0@,
                    st.client_sig@,
                    self.pk.0@,
                    st.shared_a.0@,
                    st.shared_b.0@,
                )
            },
    {
        check_frame(msg.len(), HELLO_LEN)?;
        let hello = match Hello::from_bytes(msg) {
            Ok(h) => h,
            Err(e) => return Err(e),
        };
        let server_eph = hello.verify(&self.net_id)?;
        let a = match dh(&self.eph_sk.0, &server_eph) {
            Some(a) => a,
            None => return Err(HandshakeError::KeyConversionFailure),
        };
        let b = match dh_ed_point(&self.eph_sk.0, &self.server_pk.0) {
            Some(b) => b,
            None => return Err(HandshakeError::KeyConversionFailure),
        };
        let c = match dh_ed_scalar(&self.sk.0, &server_eph) {
            Some(c) => c,
            None => return Err(HandshakeError::KeyConversionFailure),
        };
        let shared_a = SharedA(a);
        let shared_b = SharedB(b);
        let shared_c = SharedC(c);
        let client_sig = sign(&self.sk.0, &client_sig_bytes(&self.net_id, &self.server_pk, &shared_a));
        let mut payload: Vec<u8> = Vec::new();
        push_array(&mut payload, &client_sig);
        push_array(&mut payload, &self.pk.0);
        assert(payload@ =~= client_sig@ + self.pk.0@);
        let key = auth_key(&self.net_id, &shared_a, &shared_b);
        let client_auth = seal(&key, &payload);
        Ok(ClientAwaitAccept {
            hs: self,
            server_eph_pk: ServerEphPublicKey(server_eph),
            shared_a,
            shared_b,
            shared_c,
            client_sig,
            client_auth,
        })
    }
}

impl ClientAwaitAccept {
    /// Takes the ServerAccept: opens it and checks the server's signature,
    /// then derives the session.
    pub fn receive_server_accept(self, msg: &[u8]) -> (r: Result<HandshakeOutcome, HandshakeError>)
        ensures
            r matches Err(e) ==> client_on_accept(self, msg@) == Err::<(), HandshakeError>(e),
            r matches Ok(o) ==> client_on_accept(self, msg@) == Ok::<(), HandshakeError>(())
                && outcome_view(o) == client_outcome_of(
                self.hs.net_id.0@,
                self.hs.pk.0@,
                self.hs.server_pk.0@,
                self.hs.eph_pk.0@,
                self.server_eph_pk.0@,
                self.shared_a.0@,
                self.shared_b.0@,
                self.shared_c.0@,
            ),
    {
        check_frame(msg.len(), SERVER_ACCEPT_LEN)?;
        let net_id = &self.hs.net_id;
        let sealed = match Sealed::from_bytes(msg, SERVER_ACCEPT_LEN) {
            Ok(s) => s,
            Err(e) => return Err(e),
        };
        let key = accept_key(net_id, &self.shared_a, &self.shared_b, &self.shared_c);
        let sig_bytes = match open(&key, &sealed.ciphertext) {
            Some(m) => m,
            None => return Err(HandshakeError::ServerAcceptFailure),
        };
        let sig = take64(sig_bytes.as_slice(), 0);
        assert(sig@ =~= sig_bytes@);
        let signed = server_sig_bytes(net_id, &self.client_sig, &self.hs.pk, &self.shared_a);
        if !verify_signature(&self.hs.server_pk.0, &sig, &signed) {
            return Err(HandshakeError::ServerAcceptFailure);
        }
        Ok(HandshakeOutcome {
            read_key: session_key(net_id, &self.shared_a, &self.shared_b, &self.shared_c, &self.hs.pk.0),
            read_noncegen: NonceGen::new(&self.hs.eph_pk.0, net_id),
            write_key: session_key(
                net_id,
                &self.shared_a,
                &self.shared_b,
                &self.shared_c,
                &self.hs.server_pk.0,
            ),
            write_noncegen: NonceGen::new(&self.server_eph_pk.0, net_id),
        })
    }
}

/// A server that has chosen its ephemeral key and waits for a ClientHello.
pub struct ServerHandshake {
    pub net_id: NetworkId,
    pub pk: ServerPublicKey,
    pub sk: ServerSecretKey,
    pub eph_pk: ServerEphPublicKey,
    pub eph_sk: ServerEphSecretKey,
}

/// A server that accepted a ClientHello and sends its own Hello.
pub struct ServerAwaitAuth {
    pub hs: ServerHandshake,
    pub client_eph_pk: ClientEphPublicKey,
}

/// A server that derived two shared secrets and waits for the ClientAuth.
pub struct ServerReady {
    pub hs: ServerHandshake,
    pub client_eph_pk: ClientEphPublicKey,
    pub shared_a: SharedA,
    pub shared_b: SharedB,
}

/// A server that accepted the client: the ServerAccept to send, the client's
/// long-term key and the session.
pub struct ServerDone {
    pub server_accept: Vec<u8>,
    pub client_pk: ClientPublicKey,
    pub outcome: HandshakeOutcome,
}

/// What the server makes of the ClientHello `msg`: the client's ephemeral key,
/// or the error that ends the handshake.
pub open spec fn server_on_hello(hs: ServerHandshake, msg: Seq<u8>) -> Result<Seq<u8>, HandshakeError> {
    if let Some(e) = frame_error(msg.len(), 64) {
        Err(e)
    } else if msg.subrange(0, 32) != hmac_of(hs.net_id.0@, msg.subrange(32, 64)) {
        Err(HandshakeError::HelloAuthFailure)
    } else {
        Ok(msg.subrange(32, 64))
    }
}

/// The first two shared secrets of the server, or the error if one is invalid.
pub open spec fn server_secrets(st: ServerAwaitAuth) -> Result<(Seq<u8>, Seq<u8>), HandshakeError> {
    match (
        dh_of(st.hs.eph_sk.0@, st.client_eph_pk.0@),
        dh_ed_scalar_of(st.hs.sk.0@, st.client_eph_pk.0@),
    ) {
        (Some(a), Some(b)) => Ok((a, b)),
        _ => Err(HandshakeError::KeyConversionFailure),
    }
}

/// What the server makes of the ClientAuth `msg`: the client's signature,
/// its long-term key and the third shared secret, or the error.
pub open spec fn server_on_auth(st: ServerReady, msg: Seq<u8>) -> Result<
    (Seq<u8>, Seq<u8>, Seq<u8>),
    HandshakeError,
> {
    if let Some(e) = frame_error(msg.len(), 112) {
        Err(e)
    } else {
        let net = st.hs.net_id.0@;
        match opened_of(client_auth_key(net, st.shared_a.0@, st.shared_b.0@), msg) {
            None => Err(HandshakeError::ClientAuthFailure),
            Some(p) => {
                let sig = p.subrange(0, 64);
                let client_pk = p.subrange(64, 96);
                if !signature_valid(
                    client_pk,
                    sig,
                    client_sig_msg(net, st.hs.pk.0@, st.shared_a.0@),
                ) {
                    Err(HandshakeError::ClientAuthFailure)
                } else {
                    match dh_ed_point_of(st.hs.eph_sk.0@, client_pk) {
                        Some(c) => Ok((sig, client_pk, c)),
                        None => Err(HandshakeError::KeyConversionFailure),
                    }
                }
            },
        }
    }
}

impl ServerHandshake {
    /// A server with the given identity and ephemeral key pair.
    pub fn new(
        net_id: NetworkId,
        pk: ServerPublicKey,
        sk: ServerSecretKey,
        eph_pk: ServerEphPublicKey,
        eph_sk: ServerEphSecretKey,
    ) -> (r: ServerHandshake)
        ensures
            r == (ServerHandshake { net_id, pk, sk, eph_pk, eph_sk }),
    {
        ServerHandshake { net_id, pk, sk, eph_pk, eph_sk }
    }

    /// A server with the given identity and a fresh ephemeral key pair.
    pub fn start(net_id: NetworkId, pk: ServerPublicKey, sk: ServerSecretKey) -> (r: ServerHandshake)
        ensures
            r.net_id == net_id,
            r.pk == pk,
            r.sk == sk,
    {
        let (eph_pk, eph_sk) = server_eph_keypair();
        ServerHandshake::new(net_id, pk, sk, ServerEphPublicKey(eph_pk), ServerEphSecretKey(eph_sk))
    }

    /// Takes the ClientHello and checks its MAC.
    pub fn receive_client_hello(self, msg: &[u8]) -> (r: Result<ServerAwaitAuth, HandshakeError>)
        ensures
            r matches Err(e) ==> server_on_hello(self, msg@) == Err::<Seq<u8>, HandshakeError>(e),
            r matches Ok(st) ==> server_on_hello(self, msg@) == Ok::<Seq<u8>, HandshakeError>(
                st.client_eph_pk.0@,
            ) && st.hs == self,
    {
        check_frame(msg.len(), HELLO_LEN)?;
        let hello = match Hello::from_bytes(msg) {
            Ok(h) => h,
            Err(e) => return Err(e),
        };
        let client_eph = hello.verify(&self.net_id)?;
        Ok(ServerAwaitAuth { hs: self, client_eph_pk: ClientEphPublicKey(client_eph) })
    }
}

impl ServerAwaitAuth {
    /// The ServerHello to send.
    pub fn hello(&self) -> (r: Vec<u8>)
        ensures
            r@ == hello_for(self.hs.net_id.0@, self.hs.eph_pk.0@),
    {
        Hello::new(&self.hs.eph_pk.0, &self.hs.net_id).to_bytes()
    }

    /// Derives the shared secrets of the two ephemeral keys and of the
    /// client's ephemeral key with the server's long-term key.
    pub fn derive_secrets(self) -> (r: Result<ServerReady, HandshakeError>)
        ensures
            r matches Err(e) ==> server_secrets(self) == Err::<(Seq<u8>, Seq<u8>), HandshakeError>(e),
            r matches Ok(st) ==> server_secrets(self) == Ok::<_, HandshakeError>(
                (st.shared_a.0@, st.shared_b.0@),
            ) && st.hs == self.hs && st.client_eph_pk == self.client_eph_pk,
    {
        let a = match dh(&self.hs.eph_sk.0, &self.client_eph_pk.0) {
            Some(a) => a,
            None => return Err(HandshakeError::KeyConversionFailure),
        };
        let b = match dh_ed_scalar(&self.hs.sk.0, &self.client_eph_pk.0) {
            Some(b) => b,
            None => return Err(HandshakeError::KeyConversionFailure),
        };
        Ok(ServerReady {
            hs: self.hs,
            client_eph_pk: self.client_eph_pk,
            shared_a: SharedA(a),
            shared_b: SharedB(b),
        })
    }
}

impl ServerReady {
    /// Takes the ClientAuth: opens it, checks the client's signature, derives
    /// the third shared secret, and prepares the ServerAccept and the session.
    pub fn receive_client_auth(self, msg: &[u8]) -> (r: Result<ServerDone, HandshakeError>)
        ensures
            r matches Err(e) ==> server_on_auth(self, msg@) == Err::<
                (Seq<u8>, Seq<u8>, Seq<u8>),
                HandshakeError,
            >(e),
            r matches Ok(d) ==> server_on_auth(self, msg@) matches Ok((sig, client_pk, c)) && {
                &&& d.client_pk.0@ == client_pk
                &&& d.server_accept@ == server_accept_for(
                    self.hs.net_id.0@,
                    self.hs.sk.0@,
                    sig,
                    client_pk,
                    self.shared_a.0@,
                    self.shared_b.0@,
                    c,
                )
                &&& outcome_view(d.outcome) == server_outcome_of(
                    self.hs.net_id.0@,
                    client_pk,
                    self.hs.pk.0@,
                    self.client_eph_pk.0@,
                    self.hs.eph_pk.0@,
                    self.shared_a.0@,
                    self.shared_b.0@,
                    c,
                )
            },
    {
        check_frame(msg.len(), CLIENT_AUTH_LEN)?;
        let net_id = &self.hs.net_id;
        let sealed = match Sealed::from_bytes(msg, CLIENT_AUTH_LEN) {
            Ok(s) => s,
            Err(e) => return Err(e),
        };
        let key = auth_key(net_id, &self.shared_a, &self.shared_b);
        let payload = match open(&key, &sealed.ciphertext) {
            Some(m) => m,
            None => return Err(HandshakeError::ClientAuthFailure),
        };
        let client_sig = take64(payload.as_slice(), 0);
        let client_pk = ClientPublicKey(take32(payload.as_slice(), 64));
        let signed = client_sig_bytes(net_id, &self.hs.pk, &self.shared_a);
        if !verify_signature(&client_pk.0, &client_sig, &signed) {
            return Err(HandshakeError::ClientAuthFailure);
        }
        let c = match dh_ed_point(&self.hs.eph_sk.0, &client_pk.0) {
            Some(c) => c,
            None => return Err(HandshakeError::KeyConversionFailure),
        };
        let shared_c = SharedC(c);
        let server_sig = sign(
            &self.hs.sk.0,
            &server_sig_bytes(net_id, &client_sig, &client_pk, &self.shared_a),
        );
        let akey = accept_key(net_id, &self.shared_a, &self.shared_b, &shared_c);
        let mut sig_vec: Vec<u8> = Vec::new();
        push_array(&mut sig_vec, &server_sig);
        assert(sig_vec@ =~= server_sig@);
        let server_accept = seal(&akey, &sig_vec);
        let outcome = HandshakeOutcome {
            read_key: session_key(net_id, &self.shared_a, &self.shared_b, &shared_c, &self.hs.pk.0),
            read_noncegen: NonceGen::new(&self.hs.eph_pk.0, net_id),
            write_key: session_key(net_id, &self.shared_a, &self.shared_b, &shared_c, &client_pk.0),
            write_noncegen: NonceGen::new(&self.client_eph_pk.0, net_id),
        };
        proof {
            assert(server_on_auth(self, msg@) == Ok::<_, HandshakeError>(
                (client_sig@, client_pk.0@, shared_c.0@),
            ));
        }
        Ok(ServerDone { server_accept, client_pk, outcome })
    }
}

/// A Hello made on one network is refused by a server on another, unless
/// the MACs of the two networks over that key coincide.
pub proof fn lemma_foreign_hello_rejected(hs: ServerHandshake, net: Seq<u8>, eph_pk: Seq<u8>)
    requires
        eph_pk.len() == 32,
        hmac_of(net, eph_pk).len() == 32,
        hmac_of(net, eph_pk) != hmac_of(hs.net_id.0@, eph_pk),
    ensures
        server_on_hello(hs, hello_for(net, eph_pk)) == Err::<Seq<u8>, HandshakeError>(
            HandshakeError::HelloAuthFailure,
        ),
{
    crate::codec::lemma_hello_round_trip(hmac_of(net, eph_pk), eph_pk);
}

/// A ServerHello made on one network is refused by a client on another,
/// unless the MACs of the two networks over that key coincide.
pub proof fn lemma_foreign_server_hello_rejected(hs: ClientHandshake, net: Seq<u8>, eph_pk: Seq<u8>)
    requires
        eph_pk.len() == 32,
        hmac_of(net, eph_pk).len() == 32,
        hmac_of(net, eph_pk) != hmac_of(hs.net_id.0@, eph_pk),
    ensures
        client_on_hello(hs, hello_for(net, eph_pk)) == Err::<
            (Seq<u8>, Seq<u8>, Seq<u8>, Seq<u8>),
            HandshakeError,
        >(HandshakeError::HelloAuthFailure),
{
    crate::codec::lemma_hello_round_trip(hmac_of(net, eph_pk), eph_pk);
}

/// A Hello with one byte altered on the way (a flipped bit, say) is refused:
/// an altered MAC always, an altered key unless its MAC coincides with that
/// of the key that was sent.
pub proof fn lemma_altered_hello_rejected(hs: ServerHandshake, eph_pk: Seq<u8>, msg: Seq<u8>, i: int)
    requires
        eph_pk.len() == 32,
        hmac_of(hs.net_id.0@, eph_pk).len() == 32,
        msg.len() == 64,
        0 <= i < 64,
        msg[i] != hello_for(hs.net_id.0@, eph_pk)[i],
        forall|j: int| 0 <= j < 64 && j != i ==> msg[j] == hello_for(hs.net_id.0@, eph_pk)[j],
        i >= 32 ==> hmac_of(hs.net_id.0@, msg.subrange(32, 64)) != hmac_of(hs.net_id.0@, eph_pk),
    ensures
        server_on_hello(hs, msg) == Err::<Seq<u8>, HandshakeError>(HandshakeError::HelloAuthFailure),
{
    let net = hs.net_id.0@;
    let h = hello_for(net, eph_pk);
    let mac = hmac_of(net, eph_pk);
    if i < 32 {
        assert(msg.subrange(32, 64) =~= eph_pk) by {
            assert forall|j: int| 0 <= j < 32 implies msg.subrange(32, 64)[j] == eph_pk[j] by {
                assert(msg[32 + j] == h[32 + j]);
            }
        }
        assert(msg.subrange(0, 32)[i] != mac[i]) by {
            assert(h[i] == mac[i]);
        }
    } else {
        assert(msg.subrange(0, 32) =~= mac) by {
            assert forall|j: int| 0 <= j < 32 implies msg.subrange(0, 32)[j] == mac[j] by {
                assert(msg[j] == h[j]);
            }
        }
        assert(msg.subrange(32, 64)[i - 32] != eph_pk[i - 32]) by {
            assert(h[i] == eph_pk[i - 32]);
        }
    }
}

} // verus!
