//! The operations that outside crates carry out for this library: Base64,
//! SHA-256, X25519, AES-256-GCM and the random source. Each function here is
//! believed, not proved; its comment says what is claimed of the outside code.

use aes_gcm::aead::{Aead, KeyInit};
use base64::Engine;
use rand::RngCore;
use sha2::Digest;
use vstd::prelude::*;
use vstd::utf8::{decode_utf8, valid_utf8};

verus! {

/// The error of the `base64` crate's decoder.
#[verifier::external_type_specification]
#[verifier::external_body]
pub struct ExDecodeError(base64::DecodeError);

/// The error of the `aead` traits that `aes-gcm` implements.
#[verifier::external_type_specification]
#[verifier::external_body]
pub struct ExAeadError(aes_gcm::Error);

/// The error of `String::from_utf8`.
#[verifier::external_type_specification]
#[verifier::external_body]
pub struct ExFromUtf8Error(std::string::FromUtf8Error);

/// The incremental SHA-256 hasher of `sha2`, held as it is.
#[verifier::external_body]
pub struct Sha256Stream {
    hasher: sha2::Sha256,
}

/// The bytes that a hasher has taken in so far, in order.
pub uninterp spec fn sha256_absorbed(stream: Sha256Stream) -> Seq<u8>;

/// The standard-alphabet, padded Base64 text of `data`.
pub uninterp spec fn base64_text(data: Seq<u8>) -> Seq<char>;

/// The bytes that standard Base64 `text` stands for, if it is well formed.
pub uninterp spec fn base64_bytes(text: Seq<char>) -> Option<Seq<u8>>;

/// The SHA-256 digest of `data`.
pub uninterp spec fn sha256(data: Seq<u8>) -> Seq<u8>;

/// The X25519 public key that belongs to a 32-byte secret.
pub uninterp spec fn x25519_public(secret: Seq<u8>) -> Seq<u8>;

/// The X25519 shared secret of a 32-byte secret and another party's public key.
pub uninterp spec fn x25519_shared(secret: Seq<u8>, their_public: Seq<u8>) -> Seq<u8>;

/// The AES-256-GCM ciphertext, tag appended, of `plaintext` under a 32-byte
/// key and a 12-byte nonce, with no associated data; `None` where the cipher
/// refuses the length.
pub uninterp spec fn aes_gcm_sealed(key: Seq<u8>, nonce: Seq<u8>, plaintext: Seq<u8>) -> Option<
    Seq<u8>,
>;

/// The plaintext that AES-256-GCM recovers from `ciphertext` under a 32-byte
/// key and a 12-byte nonce, with no associated data; `None` where the tag
/// does not authenticate.
pub uninterp spec fn aes_gcm_opened(key: Seq<u8>, nonce: Seq<u8>, ciphertext: Seq<u8>) -> Option<
    Seq<u8>,
>;

/// The longest plaintext, in bytes, that AES-GCM accepts.
pub const AES_GCM_MAX_PLAINTEXT: u64 = 0x10_0000_0000;

/// `Engine::encode` of `base64`, on the `STANDARD` engine. Claimed: the result
/// is the Base64 text of the input, and decoding that text gives the input
/// back. The outside function panics where the encoded length overflows
/// `usize`, which the bound on the input rules out.
#[verifier::external_body]
pub(crate) fn base64_encode(data: &[u8]) -> (text: String)
    requires
        data@.len() <= isize::MAX,
    ensures
        text@ == base64_text(data@),
        base64_bytes(text@) == Some(data@),
{
    base64::engine::general_purpose::STANDARD.encode(data)
}

/// `Engine::decode` of `base64`, on the `STANDARD` engine. Claimed: the result
/// is a function of the text alone, an error exactly where the text is not
/// well-formed Base64.
#[verifier::external_body]
pub(crate) fn base64_decode(text: &str) -> (decoded: Result<Vec<u8>, base64::DecodeError>)
    ensures
        match decoded {
            Ok(bytes) => base64_bytes(text@) == Some(bytes@),
            Err(_) => base64_bytes(text@) is None,
        },
{
    base64::engine::general_purpose::STANDARD.decode(text)
}

/// `Display` of `base64::DecodeError`, through `to_string`: the decoder's own
/// words for what is wrong with a text. Nothing is claimed of them.
#[verifier::external_body]
pub(crate) fn decode_error_text(error: &base64::DecodeError) -> (text: String) {
    error.to_string()
}

/// `Digest::digest` of `sha2::Sha256`. Claimed: the result is the SHA-256
/// digest of the input.
#[verifier::external_body]
pub(crate) fn sha256_digest(data: &[u8]) -> (digest: [u8; 32])
    ensures
        digest@ == sha256(data@),
{
    sha2::Sha256::digest(data).into()
}

/// `Digest::new` of `sha2::Sha256`. Claimed: the hasher has taken in nothing.
#[verifier::external_body]
pub(crate) fn sha256_begin() -> (stream: Sha256Stream)
    ensures
        sha256_absorbed(stream) == Seq::<u8>::empty(),
{
    Sha256Stream { hasher: sha2::Sha256::new() }
}

/// `Digest::update` of `sha2::Sha256`. Claimed: the hasher has taken in the
/// data after what it had taken in before.
#[verifier::external_body]
pub(crate) fn sha256_update(stream: &mut Sha256Stream, data: &[u8])
    ensures
        sha256_absorbed(*final(stream)) == sha256_absorbed(*old(stream)) + data@,
{
    stream.hasher.update(data);
}

/// `Digest::finalize` of `sha2::Sha256`. Claimed: the result is the SHA-256
/// digest of all that the hasher has taken in.
#[verifier::external_body]
pub(crate) fn sha256_finish(stream: Sha256Stream) -> (digest: [u8; 32])
    ensures
        digest@ == sha256(sha256_absorbed(stream)),
{
    stream.hasher.finalize().into()
}

/// `StaticSecret::random_from_rng` of `x25519-dalek` on `rand::thread_rng`.
/// Nothing is claimed of the 32 bytes that come back.
#[verifier::external_body]
pub(crate) fn random_secret() -> (secret: [u8; 32]) {
    x25519_dalek::StaticSecret::random_from_rng(rand::thread_rng()).to_bytes()
}

/// `PublicKey::from(&StaticSecret)` of `x25519-dalek`. Claimed: the result is
/// the public key of the secret.
#[verifier::external_body]
pub(crate) fn public_key_of(secret: &[u8; 32]) -> (public: [u8; 32])
    ensures
        public@ == x25519_public(secret@),
{
    x25519_dalek::PublicKey::from(&x25519_dalek::StaticSecret::from(*secret)).to_bytes()
}

/// `StaticSecret::diffie_hellman` of `x25519-dalek`. Claimed: the result is the
/// shared secret of the two keys, and it is the one that the owner of
/// `their_public` computes from its own secret and this secret's public key.
#[verifier::external_body]
pub(crate) fn diffie_hellman(secret: &[u8; 32], their_public: &[u8; 32]) -> (shared: [u8; 32])
    ensures
        shared@ == x25519_shared(secret@, their_public@),
        forall|other: Seq<u8>|
            other.len() == 32 && their_public@ == #[trigger] x25519_public(other) ==> shared@
                == x25519_shared(other, x25519_public(secret@)),
{
    x25519_dalek::StaticSecret::from(*secret).diffie_hellman(
        &x25519_dalek::PublicKey::from(*their_public),
    ).to_bytes()
}

/// `Aead::encrypt` of `aes_gcm::Aes256Gcm`. Claimed: the cipher refuses
/// exactly the plaintexts above its length limit; otherwise the result is the
/// sealed plaintext, sixteen bytes of tag longer than the plaintext, and
/// opening it under the same key and nonce gives the plaintext back.
#[verifier::external_body]
pub(crate) fn aes_gcm_seal(key: &[u8; 32], nonce: &[u8; 12], plaintext: &[u8]) -> (sealed: Result<
    Vec<u8>,
    aes_gcm::Error,
>)
    requires
        plaintext@.len() + 16 <= isize::MAX,
    ensures
        sealed is Ok <==> plaintext@.len() <= AES_GCM_MAX_PLAINTEXT,
        match sealed {
            Ok(ciphertext) => aes_gcm_sealed(key@, nonce@, plaintext@) == Some(ciphertext@)
                && aes_gcm_opened(key@, nonce@, ciphertext@) == Some(plaintext@)
                && ciphertext@.len() == plaintext@.len() + 16,
            Err(_) => aes_gcm_sealed(key@, nonce@, plaintext@) is None,
        },
{
    aes_gcm::Aes256Gcm::new(key.into()).encrypt(nonce.into(), plaintext)
}

/// `Aead::decrypt` of `aes_gcm::Aes256Gcm`. Claimed: the result is a function
/// of key, nonce and ciphertext alone, an error exactly where the ciphertext
/// does not authenticate.
#[verifier::external_body]
pub(crate) fn aes_gcm_open(key: &[u8; 32], nonce: &[u8; 12], ciphertext: &[u8]) -> (opened: Result<
    Vec<u8>,
    aes_gcm::Error,
>)
    ensures
        match opened {
            Ok(plaintext) => aes_gcm_opened(key@, nonce@, ciphertext@) == Some(plaintext@),
            Err(_) => aes_gcm_opened(key@, nonce@, ciphertext@) is None,
        },
{
    aes_gcm::Aes256Gcm::new(key.into()).decrypt(nonce.into(), ciphertext)
}

/// `RngCore::fill_bytes` of `rand::thread_rng`. Nothing is claimed of the
/// bytes that come back.
#[verifier::external_body]
pub(crate) fn random_bytes<const N: usize>() -> (bytes: [u8; N]) {
    let mut bytes = [0u8; N];
    rand::thread_rng().fill_bytes(&mut bytes);
    bytes
}

/// `String::from_utf8` of std: the text that the bytes encode, an error
/// exactly where they are not valid UTF-8.
pub assume_specification[ String::from_utf8 ](bytes: Vec<u8>) -> (text: Result<
    String,
    std::string::FromUtf8Error,
>)
    ensures
        match text {
            Ok(s) => valid_utf8(bytes@) && s@ == decode_utf8(bytes@),
            Err(_) => !valid_utf8(bytes@),
        },
;

} // verus!
