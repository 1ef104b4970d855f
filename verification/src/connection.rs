//! The state held by one side of a connection, and its initial value.

use crate::error::OssuaryError;
use crate::{CHALLENGE_LEN, KEY_LEN, NONCE_LEN, PACKET_BUF_SIZE, SIGNATURE_LEN};
use vstd::prelude::*;

verus! {

#[verifier::external_type_specification]
#[verifier::external_body]
pub struct ExSystemTime(std::time::SystemTime);

#[verifier::external_type_specification]
#[verifier::external_body]
pub struct ExEd25519SecretKey(ed25519_dalek::SecretKey);

#[verifier::external_type_specification]
#[verifier::external_body]
pub struct ExEd25519PublicKey(ed25519_dalek::PublicKey);

#[verifier::external_type_specification]
#[verifier::external_body]
pub struct ExEphemeralSecret(x25519_dalek::EphemeralSecret);

#[verifier::external_type_specification]
#[verifier::external_body]
pub struct ExSharedSecret(x25519_dalek::SharedSecret);

/// The client or server role of a connection.
#[derive(Clone, Copy, Debug, PartialEq, Eq, Structural)]
pub enum ConnectionType {
    /// This side is a client.
    Client,
    /// This side is a server that only accepts clients whose authentication
    /// public key it knows.
    AuthenticatedServer,
    /// This side is a server that skips authentication and accepts any
    /// client, still over an encrypted channel.
    UnauthenticatedServer,
}

/// The state of one side of a connection.
pub enum ConnectionState {
    /// Server waits, since the given time, for a client's handshake packet.
    ServerWaitHandshake(std::time::SystemTime),
    /// Server is about to send its handshake packet.
    ServerSendHandshake,
    /// Server waits, since the given time, for the client's authentication.
    ServerWaitAuthentication(std::time::SystemTime),
    /// Client is about to send its handshake packet.
    ClientSendHandshake,
    /// Client waits, since the given time, for the server's handshake packet.
    ClientWaitHandshake(std::time::SystemTime),
    /// Client is about to send its authentication packet.
    ClientSendAuthentication,
    /// Client has verified a server whose authentication key it does not
    /// know, and is about to report it.
    ClientRaiseUntrustedServer,
    /// Client waits for its user to approve the unknown server's key.
    ClientWaitServerApproval,
    /// The channel is established, encrypted and optionally authenticated.
    Encrypted,
    /// The connection failed and will be reset; `true` when this side
    /// started the reset, `false` when it answers the other side's.
    Resetting(bool),
    /// Waiting for the other side to confirm the reset.
    ResetWait,
    /// Failed permanently; the other side is not told yet.
    Failing(OssuaryError),
    /// Failed permanently; both sides know.
    Failed(OssuaryError),
}

/// Long-lived authentication keys, and the challenge and signature of one
/// handshake.
pub struct AuthKeyMaterial {
    pub secret_key: Option<ed25519_dalek::SecretKey>,
    pub public_key: Option<ed25519_dalek::PublicKey>,
    pub challenge: Option<[u8; CHALLENGE_LEN]>,
    pub signature: Option<[u8; SIGNATURE_LEN]>,
}

impl AuthKeyMaterial {
    /// Key material that holds nothing.
    pub fn empty() -> (m: AuthKeyMaterial)
        ensures
            m.secret_key.is_none(),
            m.public_key.is_none(),
            m.challenge.is_none(),
            m.signature.is_none(),
    {
        AuthKeyMaterial { secret_key: None, public_key: None, challenge: None, signature: None }
    }
}

/// Ephemeral key-exchange material of one session.
pub struct SessionKeyMaterial {
    pub secret: Option<x25519_dalek::EphemeralSecret>,
    pub public: [u8; KEY_LEN],
    pub session: Option<x25519_dalek::SharedSecret>,
    pub nonce: [u8; NONCE_LEN],
}

impl SessionKeyMaterial {
    /// Session material with no secrets and all-zero public key and nonce.
    pub fn empty() -> (m: SessionKeyMaterial)
        ensures
            m.secret.is_none(),
            m.session.is_none(),
            forall|i: int| 0 <= i < KEY_LEN ==> m.public@[i] == 0,
            forall|i: int| 0 <= i < NONCE_LEN ==> m.nonce@[i] == 0,
    {
        SessionKeyMaterial { secret: None, public: [0u8; KEY_LEN], session: None, nonce: [0u8; NONCE_LEN] }
    }
}

/// Everything one side of an encrypted channel holds: its role and state,
/// key material of both sides, message counters, the authorized remote keys,
/// and buffers for received and soon-to-be-sent data.
pub struct OssuaryConnection {
    state: ConnectionState,
    conn_type: ConnectionType,
    local_key: SessionKeyMaterial,
    remote_key: Option<SessionKeyMaterial>,
    local_msg_id: u16,
    remote_msg_id: u16,
    authorized_keys: Vec<[u8; KEY_LEN]>,
    local_auth: AuthKeyMaterial,
    remote_auth: AuthKeyMaterial,
    read_buf: [u8; PACKET_BUF_SIZE],
    read_buf_used: usize,
    write_buf: [u8; PACKET_BUF_SIZE],
    write_buf_used: usize,
    reset_count: usize,
}

impl OssuaryConnection {
    /// The buffers are filled no further than their size.
    pub closed spec fn well_formed(&self) -> bool {
        &&& self.read_buf_used <= PACKET_BUF_SIZE
        &&& self.write_buf_used <= PACKET_BUF_SIZE
    }

    /// The state of a connection that was just made: a client about to send
    /// its handshake, with no keys of its own or of the other side, no
    /// authorized keys, message counters at zero, empty zeroed buffers and no
    /// reset so far.
    pub closed spec fn is_initial(&self) -> bool {
        &&& self.state is ClientSendHandshake
        &&& self.conn_type == ConnectionType::Client
        &&& self.local_key.secret.is_none()
        &&& self.local_key.session.is_none()
        &&& (forall|i: int| 0 <= i < KEY_LEN ==> self.local_key.public@[i] == 0)
        &&& (forall|i: int| 0 <= i < NONCE_LEN ==> self.local_key.nonce@[i] == 0)
        &&& self.remote_key.is_none()
        &&& self.local_msg_id == 0
        &&& self.remote_msg_id == 0
        &&& self.authorized_keys@.len() == 0
        &&& self.local_auth.secret_key.is_none()
        &&& self.local_auth.public_key.is_none()
        &&& self.local_auth.challenge.is_none()
        &&& self.local_auth.signature.is_none()
        &&& self.remote_auth.secret_key.is_none()
        &&& self.remote_auth.public_key.is_none()
        &&& self.remote_auth.challenge.is_none()
        &&& self.remote_auth.signature.is_none()
        &&& (forall|i: int| 0 <= i < PACKET_BUF_SIZE ==> self.read_buf@[i] == 0)
        &&& (forall|i: int| 0 <= i < PACKET_BUF_SIZE ==> self.write_buf@[i] == 0)
        &&& self.read_buf_used == 0
        &&& self.write_buf_used == 0
        &&& self.reset_count == 0
    }

    /// The state of this side of the connection.
    pub closed spec fn spec_state(&self) -> ConnectionState {
        self.state
    }

    /// The role of this side of the connection.
    pub closed spec fn spec_conn_type(&self) -> ConnectionType {
        self.conn_type
    }

    /// This side's session key material.
    pub closed spec fn spec_local_key(&self) -> SessionKeyMaterial {
        self.local_key
    }

    /// The other side's session key material, once known.
    pub closed spec fn spec_remote_key(&self) -> Option<SessionKeyMaterial> {
        self.remote_key
    }

    /// The id of the next message this side sends.
    pub closed spec fn spec_local_msg_id(&self) -> u16 {
        self.local_msg_id
    }

    /// The id of the next message this side expects.
    pub closed spec fn spec_remote_msg_id(&self) -> u16 {
        self.remote_msg_id
    }

    /// The authentication public keys of the remote hosts this side accepts.
    pub closed spec fn spec_authorized_keys(&self) -> Seq<[u8; KEY_LEN]> {
        self.authorized_keys@
    }

    /// This side's authentication material.
    pub closed spec fn spec_local_auth(&self) -> AuthKeyMaterial {
        self.local_auth
    }

    /// The other side's authentication material.
    pub closed spec fn spec_remote_auth(&self) -> AuthKeyMaterial {
        self.remote_auth
    }

    /// The buffer of received bytes and how much of it is filled.
    pub closed spec fn spec_read_buf(&self) -> (Seq<u8>, usize) {
        (self.read_buf@, self.read_buf_used)
    }

    /// The buffer of bytes to send and how much of it is filled.
    pub closed spec fn spec_write_buf(&self) -> (Seq<u8>, usize) {
        (self.write_buf@, self.write_buf_used)
    }

    /// The number of resets so far.
    pub closed spec fn spec_reset_count(&self) -> usize {
        self.reset_count
    }

    /// What `is_initial` states, field by field, for readers outside this
    /// module.
    pub proof fn lemma_initial_fields(&self)
        requires
            self.is_initial(),
        ensures
            self.well_formed(),
            self.spec_state() is ClientSendHandshake,
            self.spec_conn_type() == ConnectionType::Client,
            self.spec_local_key().secret.is_none(),
            self.spec_local_key().session.is_none(),
            forall|i: int| 0 <= i < KEY_LEN ==> self.spec_local_key().public@[i] == 0,
            forall|i: int| 0 <= i < NONCE_LEN ==> self.spec_local_key().nonce@[i] == 0,
            self.spec_remote_key().is_none(),
            self.spec_local_msg_id() == 0,
            self.spec_remote_msg_id() == 0,
            self.spec_authorized_keys().len() == 0,
            self.spec_local_auth().secret_key.is_none(),
            self.spec_local_auth().public_key.is_none(),
            self.spec_local_auth().challenge.is_none(),
            self.spec_local_auth().signature.is_none(),
            self.spec_remote_auth().secret_key.is_none(),
            self.spec_remote_auth().public_key.is_none(),
            self.spec_remote_auth().challenge.is_none(),
            self.spec_remote_auth().signature.is_none(),
            self.spec_read_buf().0.len() == PACKET_BUF_SIZE,
            forall|i: int| 0 <= i < PACKET_BUF_SIZE ==> self.spec_read_buf().0[i] == 0,
            self.spec_read_buf().1 == 0,
            self.spec_write_buf().0.len() == PACKET_BUF_SIZE,
            forall|i: int| 0 <= i < PACKET_BUF_SIZE ==> self.spec_write_buf().0[i] == 0,
            self.spec_write_buf().1 == 0,
            self.spec_reset_count() == 0,
    {
    }

    /// The role of this side of the connection.
    pub fn connection_type(&self) -> (t: ConnectionType)
        ensures
            t == self.spec_conn_type(),
    {
        self.conn_type
    }

    /// The number of resets so far.
    pub fn reset_count(&self) -> (n: usize)
        ensures
            n == self.spec_reset_count(),
    {
        self.reset_count
    }
}

impl Default for OssuaryConnection {
    fn default() -> (c: Self)
        ensures
            c.is_initial(),
            c.well_formed(),
    {
        OssuaryConnection {
            state: ConnectionState::ClientSendHandshake,
            conn_type: ConnectionType::Client,
            local_key: SessionKeyMaterial::empty(),
            remote_key: None,
            local_msg_id: 0u16,
            remote_msg_id: 0u16,
            authorized_keys: Vec::new(),
            local_auth: AuthKeyMaterial::empty(),
            remote_auth: AuthKeyMaterial::empty(),
            read_buf: [0u8; PACKET_BUF_SIZE],
            read_buf_used: 0,
            write_buf: [0u8; PACKET_BUF_SIZE],
            write_buf_used: 0,
            reset_count: 0,
        }
    }
}

} // verus!
