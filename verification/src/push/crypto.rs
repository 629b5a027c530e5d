//! ECDH (P-256) + HKDF-SHA256 + AES-256-GCM decryption of push payloads.
//!
//! Wire format: base64 of `[65-byte uncompressed SEC1 ephemeral public key]
//! ‖ [12-byte AES-GCM IV] ‖ [16-byte AES-GCM tag] ‖ [ciphertext]`. The HKDF
//! info string is the fixed `"sovereign-push-v1"`, with no salt and a 32-byte
//! output. `aes-gcm` expects `ciphertext ‖ tag` (tag last), so the two parts
//! are reordered before decrypting.

use aes_gcm::aead::{Aead, KeyInit};
use p256::elliptic_curve::sec1::ToEncodedPoint;
use crate::encoding::{
    base64_standard_decode, spec_base64_error_message, spec_base64_standard_decode, Base64DecodeError,
};
use vstd::prelude::*;

verus! {

/// Length of the uncompressed SEC1 ephemeral public key at the start of the wire.
pub const EPHEMERAL_PUBLIC_KEY_LEN: usize = 65;

/// Length of the AES-GCM IV that follows the ephemeral key.
pub const IV_LEN: usize = 12;

/// Length of the AES-GCM authentication tag that follows the IV.
pub const TAG_LEN: usize = 16;

/// Length of the derived AES-256 key.
pub const MESSAGE_KEY_LEN: usize = 32;

/// `p256::elliptic_curve::Error`, carried through as an opaque value.
#[verifier::external_type_specification]
#[verifier::external_body]
pub struct ExCurveError(p256::elliptic_curve::Error);

/// `hkdf::InvalidLength`, carried through as an opaque value.
#[verifier::external_type_specification]
#[verifier::external_body]
pub struct ExHkdfInvalidLength(hkdf::InvalidLength);

/// `aes_gcm::Error` (`aead::Error`), carried through as an opaque value.
#[verifier::external_type_specification]
#[verifier::external_body]
pub struct ExAeadError(aes_gcm::Error);

// ---------------------------------------------------------------------------
// Names for what the outside primitives compute.
// ---------------------------------------------------------------------------

/// The unsigned big-endian value of a byte string.
pub open spec fn big_endian_value(bytes: Seq<u8>) -> nat
    decreases bytes.len(),
{
    if bytes.len() == 0 {
        0
    } else {
        big_endian_value(bytes.drop_last()) * 256 + bytes.last() as nat
    }
}

/// The order `n` of the P-256 group.
pub open spec fn p256_order() -> nat {
    0xffffffff00000000ffffffffffffffffbce6faada7179e84f3b9cac2fc632551nat
}

/// Whether `p256::SecretKey::from_slice` accepts `bytes` as a secret
/// scalar: 24 to 32 big-endian bytes whose value lies in `1..n`.
pub open spec fn spec_p256_secret_key_valid(bytes: Seq<u8>) -> bool {
    &&& 24 <= bytes.len() <= 32
    &&& 0 < big_endian_value(bytes) < p256_order()
}

/// `bytes` with zero bytes in front, up to 32 bytes: the scalar's
/// fixed-width encoding.
pub open spec fn left_pad_32(bytes: Seq<u8>) -> Seq<u8> {
    Seq::new((32 - bytes.len()) as nat, |i: int| 0u8) + bytes
}

/// Leading zero bytes do not change a big-endian value.
pub proof fn lemma_leading_zeros_keep_value(zeros: nat, bytes: Seq<u8>)
    ensures
        big_endian_value(Seq::new(zeros, |i: int| 0u8) + bytes) == big_endian_value(bytes),
    decreases bytes.len(),
{
    let z = Seq::new(zeros, |i: int| 0u8);
    if bytes.len() == 0 {
        assert(z + bytes =~= z);
        lemma_zeros_value(zeros);
    } else {
        assert((z + bytes).drop_last() =~= z + bytes.drop_last());
        assert((z + bytes).last() == bytes.last());
        lemma_leading_zeros_keep_value(zeros, bytes.drop_last());
    }
}

proof fn lemma_zeros_value(zeros: nat)
    ensures
        big_endian_value(Seq::new(zeros, |i: int| 0u8)) == 0,
    decreases zeros,
{
    if zeros > 0 {
        assert(Seq::new(zeros, |i: int| 0u8).drop_last() =~= Seq::new((zeros - 1) as nat, |i: int| 0u8));
        lemma_zeros_value((zeros - 1) as nat);
    }
}

/// Whether `p256::PublicKey::from_sec1_bytes` accepts `bytes` as a curve point.
pub uninterp spec fn spec_sec1_public_key_valid(bytes: Seq<u8>) -> bool;

/// The raw shared secret (the x-coordinate) that `p256::ecdh::diffie_hellman`
/// computes from the secret scalar `secret` and the SEC1 point `public_sec1`.
pub uninterp spec fn spec_p256_ecdh(secret: Seq<u8>, public_sec1: Seq<u8>) -> Seq<u8>;

/// The `len` bytes of output keying material that HKDF-SHA256 with no salt
/// expands from `ikm` and `info`.
pub uninterp spec fn spec_hkdf_sha256(ikm: Seq<u8>, info: Seq<u8>, len: nat) -> Seq<u8>;

/// The plaintext that AES-256-GCM recovers from `ciphertext_and_tag` under
/// `key` and `nonce` with empty associated data, or `None` where the tag
/// does not authenticate.
pub uninterp spec fn spec_aes256gcm_decrypt(
    key: Seq<u8>,
    nonce: Seq<u8>,
    ciphertext_and_tag: Seq<u8>,
) -> Option<Seq<u8>>;

// ---------------------------------------------------------------------------
// Trusted calls into the outside crates.
// ---------------------------------------------------------------------------

/// Calls `p256::SecretKey::from_slice` and returns the key's `to_bytes()`.
/// Claims what the source shows: it accepts 24 to 32 big-endian bytes of a
/// value in `1..n` (shorter slices are padded with leading zeros), and the
/// key's bytes are the input padded to 32 bytes.
#[verifier::external_body]
fn p256_secret_key_from_slice(bytes: &[u8]) -> (res: Result<Vec<u8>, p256::elliptic_curve::Error>)
    ensures
        res is Ok <==> spec_p256_secret_key_valid(bytes@),
        res matches Ok(scalar) ==> scalar@ == left_pad_32(bytes@),
{
    let key = p256::SecretKey::from_slice(bytes)?;
    Ok(key.to_bytes().to_vec())
}

/// Calls `p256::SecretKey::random` with `rand::thread_rng()` and returns the
/// key's `to_bytes()`. The key is random, so only what holds of every
/// outcome is claimed: 32 bytes that `SecretKey::from_slice` accepts.
#[verifier::external_body]
fn p256_random_secret_key() -> (res: Vec<u8>)
    ensures
        res@.len() == 32,
        spec_p256_secret_key_valid(res@),
{
    p256::SecretKey::random(&mut rand::thread_rng()).to_bytes().to_vec()
}

/// Calls `p256::ecdh::diffie_hellman` on the secret scalar `secret` and the
/// point decoded by `p256::PublicKey::from_sec1_bytes(public_sec1)`, and
/// returns the shared secret's `raw_secret_bytes()`. Claims that it fails
/// exactly where the point does not decode, and otherwise yields the named
/// shared secret, which is a 32-byte field element.
#[verifier::external_body]
fn p256_ecdh(secret: &[u8], public_sec1: &[u8]) -> (res: Result<Vec<u8>, p256::elliptic_curve::Error>)
    requires
        spec_p256_secret_key_valid(secret@),
    ensures
        res is Ok <==> spec_sec1_public_key_valid(public_sec1@),
        res matches Ok(shared) ==> shared@ == spec_p256_ecdh(secret@, public_sec1@),
        res matches Ok(shared) ==> shared@.len() == 32,
{
    let secret_key = p256::SecretKey::from_slice(secret)?;
    let public_key = p256::PublicKey::from_sec1_bytes(public_sec1)?;
    let shared = p256::ecdh::diffie_hellman(secret_key.to_nonzero_scalar(), public_key.as_affine());
    Ok(shared.raw_secret_bytes().to_vec())
}

/// Calls `hkdf::Hkdf::<sha2::Sha256>::new(None, ikm).expand(info, ..)` into
/// a buffer of `len` bytes. `expand`'s source fails only when the buffer
/// exceeds 255 hash blocks (255 * 32 bytes), which `requires` rules out;
/// claims that the buffer is then filled with the named output keying
/// material.
#[verifier::external_body]
fn hkdf_sha256_expand(ikm: &[u8], info: &[u8], len: usize) -> (res: Result<Vec<u8>, hkdf::InvalidLength>)
    requires
        len <= 255 * 32,
    ensures
        res is Ok,
        res matches Ok(okm) ==> okm@ == spec_hkdf_sha256(ikm@, info@, len as nat),
        res matches Ok(okm) ==> okm@.len() == len,
{
    let mut okm = vec![0u8; len];
    hkdf::Hkdf::<sha2::Sha256>::new(None, ikm).expand(info, &mut okm)?;
    Ok(okm)
}

/// Calls `aes_gcm::Aes256Gcm`'s `Aead::decrypt` with the key and nonce given
/// as slices (`from_slice` panics on any other length, hence the
/// `requires`). Claims that it yields the named plaintext, and fails exactly
/// where the name is `None`; on success the 16-byte tag has been cut off, so
/// the plaintext is 16 bytes shorter than the input (`aead`'s
/// `decrypt_in_place` truncates the buffer at the tag).
#[verifier::external_body]
fn aes256gcm_decrypt(key: &[u8], nonce: &[u8], ciphertext_and_tag: &[u8]) -> (res: Result<Vec<u8>, aes_gcm::Error>)
    requires
        key@.len() == 32,
        nonce@.len() == 12,
    ensures
        match res {
            Ok(plaintext) => spec_aes256gcm_decrypt(key@, nonce@, ciphertext_and_tag@) == Some(plaintext@),
            Err(_) => spec_aes256gcm_decrypt(key@, nonce@, ciphertext_and_tag@) is None,
        },
        res matches Ok(plaintext) ==> plaintext@.len() + 16 == ciphertext_and_tag@.len(),
{
    let cipher = aes_gcm::Aes256Gcm::new(aes_gcm::Key::<aes_gcm::Aes256Gcm>::from_slice(key));
    cipher.decrypt(aes_gcm::Nonce::from_slice(nonce), ciphertext_and_tag)
}

/// The uncompressed SEC1 encoding of the public key of the secret scalar
/// `secret`, as `p256::SecretKey::public_key().to_encoded_point(false)`
/// writes it.
pub uninterp spec fn spec_p256_public_key_sec1(secret: Seq<u8>) -> Seq<u8>;

/// Calls `p256::SecretKey::public_key` and encodes the point with
/// `to_encoded_point(false)`. Claims that it yields the named encoding,
/// which, uncompressed, is 65 bytes starting with the tag `0x04`.
#[verifier::external_body]
fn p256_public_key_sec1(secret: &[u8]) -> (res: Vec<u8>)
    requires
        spec_p256_secret_key_valid(secret@),
    ensures
        res@ == spec_p256_public_key_sec1(secret@),
        res@.len() == 65,
        res@[0] == 4,
{
    match p256::SecretKey::from_slice(secret) {
        Ok(key) => key.public_key().to_encoded_point(false).as_bytes().to_vec(),
        Err(_) => Vec::new(),
    }
}

/// Calls `Display` on `p256::elliptic_curve::Error`, whose source writes
/// the fixed text `crypto error`.
#[verifier::external_body]
pub(crate) fn curve_error_text(e: &p256::elliptic_curve::Error) -> (res: String)
    ensures
        res@ == "crypto error"@,
{
    e.to_string()
}

// ---------------------------------------------------------------------------
// The device's private key.
// ---------------------------------------------------------------------------

/// The device's push-encryption private key: the 32 big-endian bytes of a
/// P-256 secret scalar in `1..n`, as `p256::SecretKey::to_bytes` writes it.
pub struct PrivateKey {
    scalar: Vec<u8>,
}

impl View for PrivateKey {
    type V = Seq<u8>;

    closed spec fn view(&self) -> Seq<u8> {
        self.scalar@
    }
}

impl PrivateKey {
    #[verifier::type_invariant]
    spec fn inv(self) -> bool {
        &&& self.scalar@.len() == 32
        &&& spec_p256_secret_key_valid(self.scalar@)
    }

    /// Reads a secret scalar, as stored in a credential store; fails exactly
    /// where `p256` rejects the bytes.
    pub fn from_slice(bytes: &[u8]) -> (res: Result<PrivateKey, p256::elliptic_curve::Error>)
        ensures
            res is Ok <==> spec_p256_secret_key_valid(bytes@),
            res matches Ok(key) ==> key@ == left_pad_32(bytes@),
    {
        match p256_secret_key_from_slice(bytes) {
            Ok(scalar) => {
                proof {
                    lemma_leading_zeros_keep_value((32 - bytes@.len()) as nat, bytes@);
                }
                Ok(PrivateKey { scalar })
            },
            Err(e) => Err(e),
        }
    }

    /// Generates a fresh random private key (32 bytes).
    pub fn generate() -> (res: PrivateKey)
        ensures
            res@.len() == 32,
            spec_p256_secret_key_valid(res@),
    {
        PrivateKey { scalar: p256_random_secret_key() }
    }

    /// The uncompressed SEC1 encoding (65 bytes) of the matching public key.
    pub fn public_key_sec1(&self) -> (res: Vec<u8>)
        ensures
            res@ == spec_p256_public_key_sec1(self@),
            res@.len() == 65,
    {
        proof {
            use_type_invariant(self);
        }
        p256_public_key_sec1(&self.scalar)
    }

    /// The secret scalar's bytes, as written to a credential store.
    pub fn to_bytes(&self) -> (res: Vec<u8>)
        ensures
            res@ == self@,
            res@.len() == 32,
            spec_p256_secret_key_valid(res@),
    {
        proof {
            use_type_invariant(self);
        }
        self.scalar.clone()
    }
}

// ---------------------------------------------------------------------------
// Decryption.
// ---------------------------------------------------------------------------

/// Why a push payload could not be decrypted.
#[derive(Debug)]
pub enum DecryptError {
    Base64(Base64DecodeError),
    TooShort,
    InvalidEphemeralPublicKey,
    Hkdf,
    Aead,
}

impl DecryptError {
    /// The error's human-readable message.
    pub fn message(&self) -> (res: String)
        ensures
            match self {
                DecryptError::Base64(e) => res@ == "base64 decode failed: "@ + spec_base64_error_message(*e),
                DecryptError::TooShort => res@ == "wire payload shorter than the fixed-size header"@,
                DecryptError::InvalidEphemeralPublicKey => res@ == "invalid ephemeral public key point"@,
                DecryptError::Hkdf => res@ == "HKDF expansion failed"@,
                DecryptError::Aead => res@ == "AES-256-GCM decryption failed (wrong key or tampered data)"@,
            },
    {
        match self {
            DecryptError::Base64(e) => {
                let mut out = String::from_str("base64 decode failed: ");
                let detail = e.message();
                out.append(detail.as_str());
                out
            },
            DecryptError::TooShort => String::from_str("wire payload shorter than the fixed-size header"),
            DecryptError::InvalidEphemeralPublicKey => String::from_str("invalid ephemeral public key point"),
            DecryptError::Hkdf => String::from_str("HKDF expansion failed"),
            DecryptError::Aead => String::from_str("AES-256-GCM decryption failed (wrong key or tampered data)"),
        }
    }
}

/// The outcome of decrypting an already base64-decoded wire payload.
pub enum WireOutcome {
    Plaintext(Seq<u8>),
    TooShort,
    InvalidEphemeralPublicKey,
    Aead,
}

/// `"sovereign-push-v1"` as bytes: the HKDF info string.
pub open spec fn spec_hkdf_info() -> Seq<u8> {
    seq![115u8, 111, 118, 101, 114, 101, 105, 103, 110, 45, 112, 117, 115, 104, 45, 118, 49]
}

/// The fixed-size header: ephemeral key, IV and tag.
pub open spec fn wire_header_len() -> nat {
    (EPHEMERAL_PUBLIC_KEY_LEN + IV_LEN + TAG_LEN) as nat
}

pub open spec fn wire_ephemeral_public_key(wire: Seq<u8>) -> Seq<u8> {
    wire.subrange(0, EPHEMERAL_PUBLIC_KEY_LEN as int)
}

pub open spec fn wire_iv(wire: Seq<u8>) -> Seq<u8> {
    wire.subrange(EPHEMERAL_PUBLIC_KEY_LEN as int, (EPHEMERAL_PUBLIC_KEY_LEN + IV_LEN) as int)
}

pub open spec fn wire_tag(wire: Seq<u8>) -> Seq<u8> {
    wire.subrange((EPHEMERAL_PUBLIC_KEY_LEN + IV_LEN) as int, wire_header_len() as int)
}

pub open spec fn wire_ciphertext(wire: Seq<u8>) -> Seq<u8> {
    wire.subrange(wire_header_len() as int, wire.len() as int)
}

/// The AES-256 key derived from an ECDH shared secret.
pub open spec fn message_key_from_shared(shared: Seq<u8>) -> Seq<u8> {
    spec_hkdf_sha256(shared, spec_hkdf_info(), MESSAGE_KEY_LEN as nat)
}

/// The AES-256 key the device derives for a payload whose ephemeral public
/// key is `ephemeral_public_sec1`.
pub open spec fn message_key(secret: Seq<u8>, ephemeral_public_sec1: Seq<u8>) -> Seq<u8> {
    message_key_from_shared(spec_p256_ecdh(secret, ephemeral_public_sec1))
}

/// What opening `tag ‖ ciphertext` under `key` and `iv` gives.
pub open spec fn open_outcome(key: Seq<u8>, iv: Seq<u8>, tag: Seq<u8>, ciphertext: Seq<u8>) -> WireOutcome {
    match spec_aes256gcm_decrypt(key, iv, ciphertext + tag) {
        Some(plaintext) => WireOutcome::Plaintext(plaintext),
        None => WireOutcome::Aead,
    }
}

/// What decrypting the decoded wire payload `wire` with the secret scalar
/// `secret` gives.
pub open spec fn wire_outcome(wire: Seq<u8>, secret: Seq<u8>) -> WireOutcome {
    if wire.len() < wire_header_len() {
        WireOutcome::TooShort
    } else if !spec_sec1_public_key_valid(wire_ephemeral_public_key(wire)) {
        WireOutcome::InvalidEphemeralPublicKey
    } else {
        open_outcome(
            message_key(secret, wire_ephemeral_public_key(wire)),
            wire_iv(wire),
            wire_tag(wire),
            wire_ciphertext(wire),
        )
    }
}

/// The outcome a decryption result stands for (`None` for the errors that
/// no outcome describes: a base64 or an HKDF failure).
pub open spec fn outcome_of(res: Result<Vec<u8>, DecryptError>) -> Option<WireOutcome> {
    match res {
        Ok(plaintext) => Some(WireOutcome::Plaintext(plaintext@)),
        Err(DecryptError::TooShort) => Some(WireOutcome::TooShort),
        Err(DecryptError::InvalidEphemeralPublicKey) => Some(WireOutcome::InvalidEphemeralPublicKey),
        Err(DecryptError::Aead) => Some(WireOutcome::Aead),
        Err(_) => None,
    }
}

fn hkdf_info() -> (info: Vec<u8>)
    ensures
        info@ == spec_hkdf_info(),
{
    let info: Vec<u8> = vec![115u8, 111, 118, 101, 114, 101, 105, 103, 110, 45, 112, 117, 115, 104, 45, 118, 49];
    assert(info@ == spec_hkdf_info());
    info
}

/// Reorders the wire's `tag ‖ ciphertext` into the `ciphertext ‖ tag` that
/// `aes-gcm` expects.
pub fn ciphertext_then_tag(tag: &[u8], ciphertext: &[u8]) -> (res: Vec<u8>)
    ensures
        res@ == ciphertext@ + tag@,
{
    let mut joined: Vec<u8> = Vec::new();
    joined.extend_from_slice(ciphertext);
    joined.extend_from_slice(tag);
    joined
}

/// Last step: opens `tag ‖ ciphertext` with the derived AES-256 key.
pub fn open_with_message_key(key: &[u8], iv: &[u8], tag: &[u8], ciphertext: &[u8]) -> (res: Result<Vec<u8>, DecryptError>)
    requires
        key@.len() == 32,
        iv@.len() == 12,
    ensures
        outcome_of(res) == Some(open_outcome(key@, iv@, tag@, ciphertext@)),
        res matches Ok(plaintext) ==> plaintext@.len() + 16 == ciphertext@.len() + tag@.len(),
{
    let sealed = ciphertext_then_tag(tag, ciphertext);
    match aes256gcm_decrypt(key, iv, &sealed) {
        Ok(plaintext) => Ok(plaintext),
        Err(_) => Err(DecryptError::Aead),
    }
}

/// Derives the message key from the ECDH shared secret, then opens the
/// payload with it.
pub fn open_with_shared_secret(shared: &[u8], iv: &[u8], tag: &[u8], ciphertext: &[u8]) -> (res: Result<Vec<u8>, DecryptError>)
    requires
        iv@.len() == 12,
    ensures
        outcome_of(res) == Some(open_outcome(message_key_from_shared(shared@), iv@, tag@, ciphertext@)),
        res matches Ok(plaintext) ==> plaintext@.len() + 16 == ciphertext@.len() + tag@.len(),
{
    let info = hkdf_info();
    match hkdf_sha256_expand(shared, &info, MESSAGE_KEY_LEN) {
        Ok(key) => open_with_message_key(&key, iv, tag, ciphertext),
        Err(_) => Err(DecryptError::Hkdf),
    }
}

/// Decrypts an already base64-decoded wire payload with the device's key.
pub fn decrypt_wire(wire: &[u8], private_key: &PrivateKey) -> (res: Result<Vec<u8>, DecryptError>)
    ensures
        outcome_of(res) == Some(wire_outcome(wire@, private_key@)),
        res matches Ok(plaintext) ==> plaintext@.len() + EPHEMERAL_PUBLIC_KEY_LEN + IV_LEN + TAG_LEN
            == wire@.len(),
{
    proof {
        use_type_invariant(private_key);
    }
    if wire.len() < EPHEMERAL_PUBLIC_KEY_LEN + IV_LEN + TAG_LEN {
        return Err(DecryptError::TooShort);
    }
    let (ephemeral_public_key, rest) = wire.split_at(EPHEMERAL_PUBLIC_KEY_LEN);
    let (iv, rest) = rest.split_at(IV_LEN);
    let (tag, ciphertext) = rest.split_at(TAG_LEN);
    assert(ephemeral_public_key@ == wire_ephemeral_public_key(wire@));
    assert(iv@ == wire_iv(wire@));
    assert(tag@ == wire_tag(wire@));
    assert(ciphertext@ == wire_ciphertext(wire@));
    match p256_ecdh(&private_key.scalar, ephemeral_public_key) {
        Ok(shared) => open_with_shared_secret(&shared, iv, tag, ciphertext),
        Err(_) => Err(DecryptError::InvalidEphemeralPublicKey),
    }
}

/// Decrypts a push payload (base64 text in the wire format above) with the
/// device's own private key, returning the plaintext bytes.
pub fn decrypt(wire_base64: &str, private_key: &PrivateKey) -> (res: Result<Vec<u8>, DecryptError>)
    ensures
        match spec_base64_standard_decode(wire_base64@) {
            None => res matches Err(DecryptError::Base64(_)),
            Some(wire) => outcome_of(res) == Some(wire_outcome(wire, private_key@)),
        },
        !(res matches Err(DecryptError::Hkdf)),
        res matches Ok(plaintext) ==> (spec_base64_standard_decode(wire_base64@) matches Some(wire)
            && plaintext@.len() + EPHEMERAL_PUBLIC_KEY_LEN + IV_LEN + TAG_LEN == wire.len()),
{
    match base64_standard_decode(wire_base64) {
        Ok(wire) => decrypt_wire(&wire, private_key),
        Err(e) => Err(DecryptError::Base64(e)),
    }
}

/// The framing of a wire payload: the ephemeral key, IV, tag and ciphertext
/// that a sender concatenates are exactly the parts decryption reads back,
/// and decrypting such a payload opens `ciphertext ‖ tag` under the key
/// derived from the device's secret and the sender's ephemeral key.
pub proof fn lemma_wire_framing(
    ephemeral_public_sec1: Seq<u8>,
    iv: Seq<u8>,
    tag: Seq<u8>,
    ciphertext: Seq<u8>,
    secret: Seq<u8>,
)
    requires
        ephemeral_public_sec1.len() == EPHEMERAL_PUBLIC_KEY_LEN,
        iv.len() == IV_LEN,
        tag.len() == TAG_LEN,
    ensures
        ({
            let wire = ephemeral_public_sec1 + iv + tag + ciphertext;
            &&& wire_ephemeral_public_key(wire) == ephemeral_public_sec1
            &&& wire_iv(wire) == iv
            &&& wire_tag(wire) == tag
            &&& wire_ciphertext(wire) == ciphertext
            &&& wire_outcome(wire, secret) == if spec_sec1_public_key_valid(ephemeral_public_sec1) {
                open_outcome(message_key(secret, ephemeral_public_sec1), iv, tag, ciphertext)
            } else {
                WireOutcome::InvalidEphemeralPublicKey
            }
        }),
{
    let wire = ephemeral_public_sec1 + iv + tag + ciphertext;
    assert(wire_ephemeral_public_key(wire) =~= ephemeral_public_sec1);
    assert(wire_iv(wire) =~= iv);
    assert(wire_tag(wire) =~= tag);
    assert(wire_ciphertext(wire) =~= ciphertext);
}

/// Any payload shorter than the fixed-size header is refused as too short,
/// whatever the key.
pub proof fn lemma_short_wire_refused(wire: Seq<u8>, secret: Seq<u8>)
    requires
        wire.len() < EPHEMERAL_PUBLIC_KEY_LEN + IV_LEN + TAG_LEN,
    ensures
        wire_outcome(wire, secret) == WireOutcome::TooShort,
{
}

} // verus!
