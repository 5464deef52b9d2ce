//! Device keys, per-peer session keys and the sealing of messages.
//!
//! A device owns one X25519 key pair. A session with a peer is the SHA-256
//! digest of the Diffie-Hellman secret of the device's secret and the peer's
//! public key; messages travel as AES-256-GCM ciphertext under that key, each
//! with a fresh nonce, all three parts of the envelope in Base64.

use crate::hex::hex_text;
use crate::primitives::{
    aes_gcm_open, aes_gcm_opened, aes_gcm_seal, aes_gcm_sealed, base64_bytes, base64_decode,
    base64_encode, base64_text, decode_error_text, diffie_hellman, public_key_of, random_bytes,
    random_secret, sha256, sha256_digest, x25519_public, x25519_shared, AES_GCM_MAX_PLAINTEXT,
};
use crate::table::Table;
use vstd::prelude::*;
use vstd::utf8::{decode_utf8, encode_utf8, valid_utf8};

verus! {

/// The length of an AES-GCM nonce in bytes.
pub const NONCE_SIZE: usize = 12;

/// One sealed message as it travels: every field is Base64 text.
#[derive(Debug, Clone)]
pub struct EncryptedEnvelope {
    pub nonce: String,
    pub ciphertext: String,
    pub sender_public_key: String,
}

/// The key pair of this device.
#[derive(Clone)]
pub struct DeviceKeyPair {
    pub public_key: [u8; 32],
    secret_key: [u8; 32],
}

/// The key shared with one peer, and the public key it was derived from.
struct SessionKey {
    shared_secret: [u8; 32],
    peer_public_key: [u8; 32],
}

/// Why an operation on keys or envelopes failed.
#[derive(Debug, Clone, PartialEq, Eq)]
pub enum CryptoError {
    /// A key was not well-formed Base64; `detail` is what the decoder says
    /// of it.
    InvalidEncoding { detail: String },
    /// The secret key did not decode to 32 bytes.
    InvalidSecretKeyLength,
    /// The public key did not decode to 32 bytes.
    InvalidPublicKeyLength,
    /// The peer's public key did not decode to 32 bytes.
    InvalidPeerKeyLength,
    /// The device has no key pair yet.
    NoKeypair,
    /// No session has been established with the peer.
    NoSession,
    /// The cipher refused the plaintext.
    EncryptionFailed,
    /// The envelope could not be opened, for whatever reason.
    DecryptionFailed,
    /// The opened bytes are not UTF-8 text.
    InvalidText,
}

impl CryptoError {
    /// The message that goes with the error.
    pub fn message(&self) -> (text: String)
        ensures
            text@ == match *self {
                CryptoError::InvalidEncoding { detail } => detail@,
                CryptoError::InvalidSecretKeyLength => "Invalid secret key length"@,
                CryptoError::InvalidPublicKeyLength => "Invalid public key length"@,
                CryptoError::InvalidPeerKeyLength => "Invalid peer public key length"@,
                CryptoError::NoKeypair => "No keypair generated"@,
                CryptoError::NoSession => "No session established with peer"@,
                CryptoError::EncryptionFailed => "Encryption failed"@,
                CryptoError::DecryptionFailed => "Decryption failed - invalid ciphertext or key"@,
                CryptoError::InvalidText => "Invalid UTF-8 in decrypted message"@,
            },
    {
        match self {
            CryptoError::InvalidEncoding { detail } => detail.clone(),
            CryptoError::InvalidSecretKeyLength => String::from_str("Invalid secret key length"),
            CryptoError::InvalidPublicKeyLength => String::from_str("Invalid public key length"),
            CryptoError::InvalidPeerKeyLength => String::from_str(
                "Invalid peer public key length",
            ),
            CryptoError::NoKeypair => String::from_str("No keypair generated"),
            CryptoError::NoSession => String::from_str("No session established with peer"),
            CryptoError::EncryptionFailed => String::from_str("Encryption failed"),
            CryptoError::DecryptionFailed => String::from_str(
                "Decryption failed - invalid ciphertext or key",
            ),
            CryptoError::InvalidText => String::from_str("Invalid UTF-8 in decrypted message"),
        }
    }
}

/// The session key that a device with `secret` derives for a peer with
/// `peer_public`.
pub open spec fn session_key(secret: Seq<u8>, peer_public: Seq<u8>) -> Seq<u8> {
    sha256(x25519_shared(secret, peer_public))
}

/// What opening an envelope under `key` gives: the plaintext, or nothing where
/// a field is malformed or the ciphertext does not authenticate.
pub open spec fn opened_envelope(key: Seq<u8>, nonce: Seq<char>, ciphertext: Seq<char>) -> Option<
    Seq<u8>,
> {
    match (base64_bytes(nonce), base64_bytes(ciphertext)) {
        (Some(n), Some(c)) => if n.len() == NONCE_SIZE {
            aes_gcm_opened(key, n, c)
        } else {
            None
        },
        _ => None,
    }
}

/// Whether an envelope is `plaintext` sealed under `key` with some nonce of
/// twelve bytes: nonce and ciphertext are the Base64 of what they decode to,
/// the ciphertext is sixteen bytes longer than the plaintext, and the
/// envelope opens under `key` to the plaintext.
pub open spec fn sealed_envelope(
    key: Seq<u8>,
    nonce: Seq<char>,
    ciphertext: Seq<char>,
    plaintext: Seq<u8>,
) -> bool {
    exists|n: Seq<u8>|
        n.len() == NONCE_SIZE && nonce == base64_text(n) && #[trigger] aes_gcm_sealed(
            key,
            n,
            plaintext,
        ) is Some && ciphertext == base64_text(aes_gcm_sealed(key, n, plaintext)->0)
            && base64_bytes(nonce) == Some(n) && base64_bytes(ciphertext) == aes_gcm_sealed(
            key,
            n,
            plaintext,
        ) && aes_gcm_sealed(key, n, plaintext)->0.len() == plaintext.len() + 16
            && opened_envelope(key, nonce, ciphertext) == Some(plaintext)
}

/// Copies a vector of exactly `N` bytes into an array.
pub fn bytes_to_array<const N: usize>(bytes: &Vec<u8>) -> (array: Option<[u8; N]>)
    ensures
        match array {
            Some(a) => bytes@.len() == N && a@ == bytes@,
            None => bytes@.len() != N,
        },
{
    if bytes.len() != N {
        return None;
    }
    let mut array = [0u8; N];
    let mut i: usize = 0;
    while i < N
        invariant
            bytes@.len() == N,
            array@.len() == N,
            i <= N,
            forall|j: int| 0 <= j < i ==> array@[j] == bytes@[j],
        decreases N - i,
    {
        array[i] = bytes[i];
        i += 1;
    }
    assert(array@ =~= bytes@);
    Some(array)
}

/// Keys of this device and of its sessions.
pub struct CryptoManager {
    device_keypair: Option<DeviceKeyPair>,
    session_keys: Table<SessionKey>,
}

impl CryptoManager {
    /// The session table holds no key twice.
    pub closed spec fn wf(&self) -> bool {
        self.session_keys.wf()
    }

    /// Whether the device has a key pair.
    pub closed spec fn has_keypair(&self) -> bool {
        self.device_keypair is Some
    }

    /// The device's public key.
    pub closed spec fn public_key(&self) -> Seq<u8> {
        self.device_keypair->0.public_key@
    }

    /// The device's secret key.
    pub closed spec fn secret_key(&self) -> Seq<u8> {
        self.device_keypair->0.secret_key@
    }

    /// The peers with a session, each with its session key.
    pub closed spec fn sessions(&self) -> Map<Seq<char>, Seq<u8>> {
        Map::new(
            |peer: Seq<char>| self.session_keys@.contains_key(peer),
            |peer: Seq<char>| self.session_keys@[peer].shared_secret@,
        )
    }

    /// The public key with which each session was established.
    pub closed spec fn session_peers(&self) -> Map<Seq<char>, Seq<u8>> {
        Map::new(
            |peer: Seq<char>| self.session_keys@.contains_key(peer),
            |peer: Seq<char>| self.session_keys@[peer].peer_public_key@,
        )
    }

    /// A manager without key pair and without sessions.
    pub fn new() -> (manager: Self)
        ensures
            manager.wf(),
            !manager.has_keypair(),
            manager.sessions() == Map::<Seq<char>, Seq<u8>>::empty(),
            manager.session_peers() == Map::<Seq<char>, Seq<u8>>::empty(),
    {
        let manager = CryptoManager { device_keypair: None, session_keys: Table::new() };
        assert(manager.sessions() =~= Map::<Seq<char>, Seq<u8>>::empty());
        assert(manager.session_peers() =~= Map::<Seq<char>, Seq<u8>>::empty());
        manager
    }

    /// Replaces the device's key pair by a fresh random one and returns the
    /// new public key in Base64. Sessions stay as they are.
    pub fn generate_keypair(&mut self) -> (public_b64: String)
        requires
            old(self).wf(),
        ensures
            final(self).wf(),
            final(self).has_keypair(),
            final(self).secret_key().len() == 32,
            final(self).public_key().len() == 32,
            final(self).public_key() == x25519_public(final(self).secret_key()),
            public_b64@ == base64_text(final(self).public_key()),
            base64_bytes(public_b64@) == Some(final(self).public_key()),
            final(self).sessions() == old(self).sessions(),
            final(self).session_peers() == old(self).session_peers(),
    {
        let secret = random_secret();
        let public = public_key_of(&secret);
        let public_b64 = base64_encode(public.as_slice());
        self.device_keypair = Some(DeviceKeyPair { public_key: public, secret_key: secret });
        public_b64
    }

    /// Takes a stored key pair into use. Both keys come in Base64 and must
    /// decode to 32 bytes; the secret is examined first. On an error the
    /// manager is unchanged.
    pub fn load_keypair(&mut self, secret_b64: &str, public_b64: &str) -> (loaded: Result<
        (),
        CryptoError,
    >)
        requires
            old(self).wf(),
        ensures
            final(self).wf(),
            loaded_keypair(loaded, secret_b64@, public_b64@),
            loaded is Ok ==> {
                &&& final(self).has_keypair()
                &&& Some(final(self).secret_key()) == base64_bytes(secret_b64@)
                &&& Some(final(self).public_key()) == base64_bytes(public_b64@)
                &&& final(self).sessions() == old(self).sessions()
                &&& final(self).session_peers() == old(self).session_peers()
            },
            loaded is Err ==> *final(self) == *old(self),
    {
        let secret_bytes = match base64_decode(secret_b64) {
            Ok(bytes) => bytes,
            Err(e) => {
                return Err(CryptoError::InvalidEncoding { detail: decode_error_text(&e) });
            },
        };
        let secret = match bytes_to_array::<32>(&secret_bytes) {
            Some(array) => array,
            None => {
                return Err(CryptoError::InvalidSecretKeyLength);
            },
        };
        let public_bytes = match base64_decode(public_b64) {
            Ok(bytes) => bytes,
            Err(e) => {
                return Err(CryptoError::InvalidEncoding { detail: decode_error_text(&e) });
            },
        };
        let public = match bytes_to_array::<32>(&public_bytes) {
            Some(array) => array,
            None => {
                return Err(CryptoError::InvalidPublicKeyLength);
            },
        };
        self.device_keypair = Some(DeviceKeyPair { public_key: public, secret_key: secret });
        Ok(())
    }

    /// The device's public key in Base64, once there is a key pair.
    pub fn get_public_key(&self) -> (public_b64: Option<String>)
        ensures
            match public_b64 {
                Some(text) => self.has_keypair() && text@ == base64_text(self.public_key())
                    && base64_bytes(text@) == Some(self.public_key()),
                None => !self.has_keypair(),
            },
    {
        match &self.device_keypair {
            Some(keypair) => Some(base64_encode(keypair.public_key.as_slice())),
            None => None,
        }
    }

    /// Derives the session key for `peer_id` from the peer's public key and
    /// stores it, in place of an earlier session with that peer. The key is
    /// the one that the peer derives from its own secret and this device's
    /// public key. On an error the manager is unchanged.
    pub fn establish_session(&mut self, peer_id: &str, peer_public_key_b64: &str) -> (established:
        Result<(), CryptoError>)
        requires
            old(self).wf(),
        ensures
            final(self).wf(),
            established_session(established, old(self).has_keypair(), peer_public_key_b64@),
            established is Err ==> *final(self) == *old(self),
            established is Ok ==> {
                let peer_public = base64_bytes(peer_public_key_b64@)->0;
                let key = session_key(old(self).secret_key(), peer_public);
                &&& final(self).has_keypair()
                &&& final(self).secret_key() == old(self).secret_key()
                &&& final(self).public_key() == old(self).public_key()
                &&& final(self).sessions() == old(self).sessions().insert(peer_id@, key)
                &&& final(self).session_peers() == old(self).session_peers().insert(
                    peer_id@,
                    peer_public,
                )
                &&& forall|other: Seq<u8>|
                    other.len() == 32 && peer_public == #[trigger] x25519_public(other) ==> key
                        == session_key(other, x25519_public(old(self).secret_key()))
            },
    {
        let peer_bytes = match base64_decode(peer_public_key_b64) {
            Ok(bytes) => bytes,
            Err(e) => {
                return Err(CryptoError::InvalidEncoding { detail: decode_error_text(&e) });
            },
        };
        let peer_public = match bytes_to_array::<32>(&peer_bytes) {
            Some(array) => array,
            None => {
                return Err(CryptoError::InvalidPeerKeyLength);
            },
        };
        let shared = match &self.device_keypair {
            Some(keypair) => diffie_hellman(&keypair.secret_key, &peer_public),
            None => {
                return Err(CryptoError::NoKeypair);
            },
        };
        let shared_secret = sha256_digest(shared.as_slice());
        let ghost before = *self;
        let entry = SessionKey { shared_secret, peer_public_key: peer_public };
        self.session_keys.insert(String::from_str(peer_id), entry);
        proof {
            assert(self.sessions() =~= before.sessions().insert(peer_id@, shared_secret@));
            assert(self.session_peers() =~= before.session_peers().insert(
                peer_id@,
                peer_public@,
            ));
        }
        Ok(())
    }

    /// Seals `plaintext` for `peer_id` under the session key, with a fresh
    /// random nonce, and adds this device's public key (empty text where the
    /// device has none).
    pub fn encrypt(&self, peer_id: &str, plaintext: &[u8]) -> (sealed: Result<
        EncryptedEnvelope,
        CryptoError,
    >)
        requires
            self.wf(),
            plaintext@.len() + 16 <= isize::MAX,
        ensures
            match sealed {
                Ok(envelope) => {
                    &&& self.sessions().contains_key(peer_id@)
                    &&& plaintext@.len() <= AES_GCM_MAX_PLAINTEXT
                    &&& sealed_envelope(
                        self.sessions()[peer_id@],
                        envelope.nonce@,
                        envelope.ciphertext@,
                        plaintext@,
                    )
                    &&& base64_bytes(envelope.nonce@) matches Some(n) && n.len() == NONCE_SIZE
                    &&& base64_bytes(envelope.ciphertext@) matches Some(c) && c.len()
                        == plaintext@.len() + 16
                    &&& envelope.sender_public_key@ == if self.has_keypair() {
                        base64_text(self.public_key())
                    } else {
                        Seq::<char>::empty()
                    }
                },
                Err(e) => if !self.sessions().contains_key(peer_id@) {
                    e == CryptoError::NoSession
                } else {
                    e == CryptoError::EncryptionFailed && plaintext@.len() > AES_GCM_MAX_PLAINTEXT
                },
            },
    {
        let session = match self.session_keys.get(peer_id) {
            Some(session) => session,
            None => {
                return Err(CryptoError::NoSession);
            },
        };
        let nonce_bytes: [u8; 12] = random_bytes::<12>();
        let ciphertext = match aes_gcm_seal(&session.shared_secret, &nonce_bytes, plaintext) {
            Ok(bytes) => bytes,
            Err(_) => {
                return Err(CryptoError::EncryptionFailed);
            },
        };
        let public_key = match &self.device_keypair {
            Some(keypair) => base64_encode(keypair.public_key.as_slice()),
            None => String::new(),
        };
        let envelope = EncryptedEnvelope {
            nonce: base64_encode(nonce_bytes.as_slice()),
            ciphertext: base64_encode(ciphertext.as_slice()),
            sender_public_key: public_key,
        };
        proof {
            let key = self.sessions()[peer_id@];
            assert(aes_gcm_sealed(key, nonce_bytes@, plaintext@) is Some);
        }
        Ok(envelope)
    }

    /// Opens an envelope from `peer_id` under the session key. Whatever is
    /// wrong with the envelope, the error is the same.
    pub fn decrypt(&self, peer_id: &str, envelope: &EncryptedEnvelope) -> (opened: Result<
        Vec<u8>,
        CryptoError,
    >)
        requires
            self.wf(),
        ensures
            match opened {
                Ok(plaintext) => self.sessions().contains_key(peer_id@) && opened_envelope(
                    self.sessions()[peer_id@],
                    envelope.nonce@,
                    envelope.ciphertext@,
                ) == Some(plaintext@),
                Err(e) => if !self.sessions().contains_key(peer_id@) {
                    e == CryptoError::NoSession
                } else {
                    e == CryptoError::DecryptionFailed && opened_envelope(
                        self.sessions()[peer_id@],
                        envelope.nonce@,
                        envelope.ciphertext@,
                    ) is None
                },
            },
    {
        let session = match self.session_keys.get(peer_id) {
            Some(session) => session,
            None => {
                return Err(CryptoError::NoSession);
            },
        };
        let nonce_vec = match base64_decode(envelope.nonce.as_str()) {
            Ok(bytes) => bytes,
            Err(_) => {
                return Err(CryptoError::DecryptionFailed);
            },
        };
        let nonce = match bytes_to_array::<12>(&nonce_vec) {
            Some(array) => array,
            None => {
                return Err(CryptoError::DecryptionFailed);
            },
        };
        let ciphertext = match base64_decode(envelope.ciphertext.as_str()) {
            Ok(bytes) => bytes,
            Err(_) => {
                return Err(CryptoError::DecryptionFailed);
            },
        };
        match aes_gcm_open(&session.shared_secret, &nonce, ciphertext.as_slice()) {
            Ok(plaintext) => Ok(plaintext),
            Err(_) => Err(CryptoError::DecryptionFailed),
        }
    }

    /// Seals the UTF-8 bytes of a text message for `peer_id`.
    pub fn encrypt_message(&self, peer_id: &str, message: &str) -> (sealed: Result<
        EncryptedEnvelope,
        CryptoError,
    >)
        requires
            self.wf(),
            encode_utf8(message@).len() + 16 <= isize::MAX,
        ensures
            match sealed {
                Ok(envelope) => {
                    &&& self.sessions().contains_key(peer_id@)
                    &&& encode_utf8(message@).len() <= AES_GCM_MAX_PLAINTEXT
                    &&& sealed_envelope(
                        self.sessions()[peer_id@],
                        envelope.nonce@,
                        envelope.ciphertext@,
                        encode_utf8(message@),
                    )
                    &&& base64_bytes(envelope.nonce@) matches Some(n) && n.len() == NONCE_SIZE
                    &&& base64_bytes(envelope.ciphertext@) matches Some(c) && c.len()
                        == encode_utf8(message@).len() + 16
                    &&& envelope.sender_public_key@ == if self.has_keypair() {
                        base64_text(self.public_key())
                    } else {
                        Seq::<char>::empty()
                    }
                },
                Err(e) => if !self.sessions().contains_key(peer_id@) {
                    e == CryptoError::NoSession
                } else {
                    e == CryptoError::EncryptionFailed && encode_utf8(message@).len()
                        > AES_GCM_MAX_PLAINTEXT
                },
            },
    {
        self.encrypt(peer_id, message.as_bytes())
    }

    /// Opens an envelope from `peer_id` and reads the plaintext as UTF-8.
    pub fn decrypt_message(&self, peer_id: &str, envelope: &EncryptedEnvelope) -> (opened: Result<
        String,
        CryptoError,
    >)
        requires
            self.wf(),
        ensures
            opened_message(
                self.sessions().contains_key(peer_id@),
                opened_envelope(
                    self.sessions()[peer_id@],
                    envelope.nonce@,
                    envelope.ciphertext@,
                ),
            ) == match opened {
                Ok(text) => Ok::<Seq<char>, CryptoError>(text@),
                Err(e) => Err(e),
            },
    {
        let plaintext = match self.decrypt(peer_id, envelope) {
            Ok(bytes) => bytes,
            Err(e) => {
                return Err(e);
            },
        };
        match String::from_utf8(plaintext) {
            Ok(text) => Ok(text),
            Err(_) => Err(CryptoError::InvalidText),
        }
    }

    /// Whether a session with `peer_id` is established.
    pub fn has_session(&self, peer_id: &str) -> (present: bool)
        requires
            self.wf(),
        ensures
            present == self.sessions().contains_key(peer_id@),
    {
        self.session_keys.contains_key(peer_id)
    }

    /// Forgets the session with `peer_id`, if there is one.
    pub fn remove_session(&mut self, peer_id: &str)
        requires
            old(self).wf(),
        ensures
            final(self).wf(),
            final(self).sessions() == old(self).sessions().remove(peer_id@),
            final(self).session_peers() == old(self).session_peers().remove(peer_id@),
            final(self).has_keypair() == old(self).has_keypair(),
            final(self).has_keypair() ==> final(self).secret_key() == old(self).secret_key()
                && final(self).public_key() == old(self).public_key(),
    {
        let ghost before = *self;
        let _ = self.session_keys.remove(peer_id);
        proof {
            assert(self.sessions() =~= before.sessions().remove(peer_id@));
            assert(self.session_peers() =~= before.session_peers().remove(peer_id@));
        }
    }

    /// Forgets every session.
    pub fn clear_sessions(&mut self)
        requires
            old(self).wf(),
        ensures
            final(self).wf(),
            final(self).sessions() == Map::<Seq<char>, Seq<u8>>::empty(),
            final(self).session_peers() == Map::<Seq<char>, Seq<u8>>::empty(),
            final(self).has_keypair() == old(self).has_keypair(),
            final(self).has_keypair() ==> final(self).secret_key() == old(self).secret_key()
                && final(self).public_key() == old(self).public_key(),
    {
        self.session_keys.clear();
        proof {
            assert(self.sessions() =~= Map::<Seq<char>, Seq<u8>>::empty());
            assert(self.session_peers() =~= Map::<Seq<char>, Seq<u8>>::empty());
        }
    }
}

impl Default for CryptoManager {
    fn default() -> (manager: Self)
        ensures
            manager.wf(),
            !manager.has_keypair(),
            manager.sessions() == Map::<Seq<char>, Seq<u8>>::empty(),
            manager.session_peers() == Map::<Seq<char>, Seq<u8>>::empty(),
    {
        CryptoManager::new()
    }
}

/// Whether `loaded` is what `load_keypair` answers for two Base64 texts: the
/// secret is examined first, its encoding before its length.
pub open spec fn loaded_keypair(
    loaded: Result<(), CryptoError>,
    secret_b64: Seq<char>,
    public_b64: Seq<char>,
) -> bool {
    match base64_bytes(secret_b64) {
        None => loaded matches Err(CryptoError::InvalidEncoding { .. }),
        Some(secret) => if secret.len() != 32 {
            loaded == Err::<(), CryptoError>(CryptoError::InvalidSecretKeyLength)
        } else {
            match base64_bytes(public_b64) {
                None => loaded matches Err(CryptoError::InvalidEncoding { .. }),
                Some(public) => if public.len() != 32 {
                    loaded == Err::<(), CryptoError>(CryptoError::InvalidPublicKeyLength)
                } else {
                    loaded is Ok
                },
            }
        },
    }
}

/// Whether `established` is what `establish_session` answers for a peer key
/// in Base64: the encoding of the key is examined first, then its length,
/// then whether the device has a key pair.
pub open spec fn established_session(
    established: Result<(), CryptoError>,
    has_keypair: bool,
    peer_public_b64: Seq<char>,
) -> bool {
    match base64_bytes(peer_public_b64) {
        None => established matches Err(CryptoError::InvalidEncoding { .. }),
        Some(public) => if public.len() != 32 {
            established == Err::<(), CryptoError>(CryptoError::InvalidPeerKeyLength)
        } else if !has_keypair {
            established == Err::<(), CryptoError>(CryptoError::NoKeypair)
        } else {
            established is Ok
        },
    }
}

/// What `decrypt_message` answers, given whether there is a session and what
/// the envelope opens to.
pub open spec fn opened_message(has_session: bool, opened: Option<Seq<u8>>) -> Result<
    Seq<char>,
    CryptoError,
> {
    if !has_session {
        Err(CryptoError::NoSession)
    } else {
        match opened {
            None => Err(CryptoError::DecryptionFailed),
            Some(bytes) => if valid_utf8(bytes) {
                Ok(decode_utf8(bytes))
            } else {
                Err(CryptoError::InvalidText)
            },
        }
    }
}

/// Two devices that have each established a session with the other's public
/// key hold the same session key. The first premise is what
/// `establish_session` states on the first device, the second what it states
/// on the other.
pub proof fn law_session_keys_agree(
    key_here: Seq<u8>,
    key_there: Seq<u8>,
    secret_here: Seq<u8>,
    secret_there: Seq<u8>,
)
    requires
        secret_there.len() == 32,
        forall|other: Seq<u8>|
            other.len() == 32 && x25519_public(secret_there) == #[trigger] x25519_public(other)
                ==> key_here == session_key(other, x25519_public(secret_here)),
        key_there == session_key(secret_there, x25519_public(secret_here)),
    ensures
        key_here == key_there,
{
    let public_there = x25519_public(secret_there);
    assert(key_here == session_key(secret_there, x25519_public(secret_here)));
}

/// A text message that one device sealed opens on the other device, under
/// the same session key, to the same text.
pub proof fn law_message_round_trip(
    key_here: Seq<u8>,
    key_there: Seq<u8>,
    nonce: Seq<char>,
    ciphertext: Seq<char>,
    message: Seq<char>,
)
    requires
        key_here == key_there,
        sealed_envelope(key_here, nonce, ciphertext, encode_utf8(message)),
    ensures
        opened_message(true, opened_envelope(key_there, nonce, ciphertext)) == Ok::<
            Seq<char>,
            CryptoError,
        >(message),
{
    vstd::utf8::encode_utf8_valid_utf8(message);
    vstd::utf8::encode_utf8_decode_utf8(message);
}

/// The SHA-256 digest of `data` in lower-case hexadecimal.
pub fn generate_checksum(data: &[u8]) -> (checksum: String)
    ensures
        checksum@ == hex_text(sha256(data@)),
{
    let digest = sha256_digest(data);
    crate::hex::encode(digest.as_slice())
}

/// Whether `expected` is the checksum of `data`.
pub fn verify_checksum(data: &[u8], expected: &str) -> (matches: bool)
    ensures
        matches == (hex_text(sha256(data@)) == expected@),
{
    let checksum = generate_checksum(data);
    crate::text::same_text(checksum.as_str(), expected)
}

/// A fresh device identifier: sixteen random bytes in lower-case hexadecimal.
pub fn generate_device_id() -> (id: String)
    ensures
        exists|bytes: Seq<u8>| bytes.len() == 16 && id@ == #[trigger] hex_text(bytes),
        id@.len() == 32,
{
    let bytes: [u8; 16] = random_bytes::<16>();
    crate::hex::encode(bytes.as_slice())
}

} // verus!
