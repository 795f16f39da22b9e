//! Signatures over the hashes of a result envelope.
//!
//! ```text
//! ResultEnvelope
//!   ├── content_hash    ─┐
//!   ├── evidence_hash   ─┼─► signed_data = SHA256(content_hash || evidence_hash)
//!   └── signature ◄──────┘
//! ```
//!
//! The software backend signs with an ephemeral ECDSA P-256 key; SHA-256,
//! ECDSA, Base64, hexadecimal and UUID generation come from their crates.

use vstd::prelude::*;
use crate::numfmt::digit_char;
use crate::output::is_lower_hex;
use vstd::string::StringSliceAdditionalSpecFns;
use vstd::utf8::encode_utf8;
use crate::text::{append_chars, chars_of, string_from_chars};
use sha2::Digest;
use base64::Engine;
use p256::ecdsa::signature::Signer;

verus! {

// ---------------------------------------------------------------------------
// Outside functions
// ---------------------------------------------------------------------------

/// SHA-256 of `data` (`sha2::Sha256::digest`).
pub uninterp spec fn sha256(data: Seq<u8>) -> Seq<u8>;

/// The character of a six-bit value in the standard Base64 alphabet
/// (`A`-`Z`, `a`-`z`, `0`-`9`, `+`, `/`).
pub open spec fn base64_char(v: nat) -> char {
    if v < 26 {
        ('A' as nat + v) as char
    } else if v < 52 {
        ('a' as nat + v - 26) as char
    } else if v < 62 {
        ('0' as nat + v - 52) as char
    } else if v == 62 {
        '+'
    } else {
        '/'
    }
}

/// Base64 with the standard alphabet and padding: each group of three
/// bytes becomes four characters; a last group of one or two bytes becomes
/// two or three characters followed by `=` up to four.
pub open spec fn base64_standard(data: Seq<u8>) -> Seq<char>
    decreases data.len(),
{
    if data.len() == 0 {
        Seq::empty()
    } else if data.len() == 1 {
        seq![base64_char((data[0] / 4) as nat), base64_char(((data[0] % 4) * 16) as nat), '=', '=']
    } else if data.len() == 2 {
        seq![
            base64_char((data[0] / 4) as nat),
            base64_char(((data[0] % 4) * 16 + data[1] / 16) as nat),
            base64_char(((data[1] % 16) * 4) as nat),
            '=',
        ]
    } else {
        seq![
            base64_char((data[0] / 4) as nat),
            base64_char(((data[0] % 4) * 16 + data[1] / 16) as nat),
            base64_char(((data[1] % 16) * 4 + data[2] / 64) as nat),
            base64_char((data[2] % 64) as nat),
        ] + base64_standard(data.skip(3))
    }
}

/// The SEC1 uncompressed public key of the P-256 key whose secret scalar
/// is `secret`, or `None` when `secret` is not such a scalar
/// (`p256::ecdsa::SigningKey::from_slice`, `verifying_key`,
/// `to_encoded_point(false)`).
pub uninterp spec fn p256_public_key(secret: Seq<u8>) -> Option<Seq<u8>>;

/// The DER-encoded ECDSA P-256 signature of `msg` (hashed with SHA-256,
/// RFC 6979 nonce) by the key whose secret scalar is `secret`, or `None`
/// when signing fails (`Signer::try_sign`, `Signature::to_der`).
pub uninterp spec fn p256_der_signature(secret: Seq<u8>, msg: Seq<u8>) -> Option<Seq<u8>>;

/// `sha2::Sha256::digest`: the 32-byte SHA-256 digest.
#[verifier::external_body]
pub(crate) fn sha256_digest(data: &[u8]) -> (res: [u8; 32])
    ensures
        res@ == sha256(data@),
{
    sha2::Sha256::digest(data).into()
}

/// Lower-case hexadecimal, two characters per byte.
pub open spec fn hex_lower(data: Seq<u8>) -> Seq<char>
    decreases data.len(),
{
    if data.len() == 0 {
        Seq::empty()
    } else {
        hex_lower(data.drop_last()) + seq![
            digit_char((data.last() / 16) as nat, true),
            digit_char((data.last() % 16) as nat, true),
        ]
    }
}

/// `hex::encode`: lower-case hexadecimal, two characters per byte, as its
/// documentation states.
#[verifier::external_body]
fn hex_encode(data: &[u8]) -> (res: String)
    ensures
        res@ == hex_lower(data@),
{
    hex::encode(data)
}

/// `base64::engine::general_purpose::STANDARD.encode`: standard alphabet,
/// with padding, as the crate documents.
#[verifier::external_body]
fn base64_encode(data: &[u8]) -> (res: String)
    ensures
        res@ == base64_standard(data@),
{
    base64::engine::general_purpose::STANDARD.encode(data)
}

/// `p256::ecdsa::SigningKey::random(&mut OsRng).to_bytes()`: a fresh random
/// secret scalar, 32 bytes as `FieldBytes` of P-256.  The value is random;
/// what is stated is that it is a valid secret scalar: `random` draws a
/// non-zero scalar, `to_bytes` gives its canonical encoding, and
/// `SigningKey::from_slice` accepts exactly such encodings.
#[verifier::external_body]
fn generate_secret() -> (res: Vec<u8>)
    ensures
        res@.len() == 32,
        p256_public_key(res@) is Some,
{
    p256::ecdsa::SigningKey::random(&mut rand_core::OsRng).to_bytes().to_vec()
}

/// `SigningKey::from_slice(secret)`, then the SEC1 uncompressed encoding of
/// its verifying key.
#[verifier::external_body]
fn public_key_of(secret: &[u8]) -> (res: Option<Vec<u8>>)
    ensures
        match p256_public_key(secret@) {
            Some(k) => res is Some && res.unwrap()@ == k,
            None => res is None,
        },
{
    match p256::ecdsa::SigningKey::from_slice(secret) {
        Ok(key) => Some(key.verifying_key().to_encoded_point(false).as_bytes().to_vec()),
        Err(_) => None,
    }
}

/// `SigningKey::from_slice(secret)`, then `try_sign(msg)` and the DER
/// encoding of the signature.
#[verifier::external_body]
fn sign_der(secret: &[u8], msg: &[u8]) -> (res: Option<Vec<u8>>)
    ensures
        match p256_der_signature(secret@, msg@) {
            Some(s) => res is Some && res.unwrap()@ == s,
            None => res is None,
        },
{
    match p256::ecdsa::SigningKey::from_slice(secret) {
        Ok(key) => match key.try_sign(msg) {
            Ok(sig) => {
                let sig: p256::ecdsa::Signature = sig;
                Some(sig.to_der().as_bytes().to_vec())
            },
            Err(_) => None,
        },
        Err(_) => None,
    }
}

/// The hyphenated lower-case text of a version 4 UUID: 36 characters,
/// hyphens at 8, 13, 18 and 23, hexadecimal digits elsewhere, the version
/// digit `4` at 14 and one of `8`, `9`, `a`, `b` (the RFC 4122 variant) at 19.
pub open spec fn is_uuid_v4_text(s: Seq<char>) -> bool {
    &&& s.len() == 36
    &&& forall|i: int| 0 <= i < 36 ==> if i == 8 || i == 13 || i == 18 || i == 23 {
        #[trigger] s[i] == '-'
    } else {
        is_lower_hex(s[i])
    }
    &&& s[14] == '4'
    &&& (s[19] == '8' || s[19] == '9' || s[19] == 'a' || s[19] == 'b')
}

/// `uuid::Uuid::new_v4().to_string()`: random bits with the version and
/// variant bits set, written in the hyphenated lower-case form.  Which UUID
/// comes out is random; only its form is stated.
#[verifier::external_body]
fn new_uuid_v4() -> (res: String)
    ensures
        is_uuid_v4_text(res@),
{
    uuid::Uuid::new_v4().to_string()
}

// ---------------------------------------------------------------------------
// Types
// ---------------------------------------------------------------------------

/// Errors of signing operations.
#[derive(Debug)]
pub enum SigningError {
    /// Signing backend not available (TPM not present, etc.)
    BackendUnavailable(String),
    /// Signing operation failed
    SigningFailed(String),
    /// Key generation or export failed
    KeyError(String),
    /// Hashing failed
    HashingFailed(String),
}

pub open spec fn signing_error_message(e: SigningError) -> Seq<char> {
    match e {
        SigningError::BackendUnavailable(m) => "Signing backend unavailable: "@ + m@,
        SigningError::SigningFailed(m) => "Signing failed: "@ + m@,
        SigningError::KeyError(m) => "Key error: "@ + m@,
        SigningError::HashingFailed(m) => "Hashing failed: "@ + m@,
    }
}

impl SigningError {
    /// The message that describes the error.
    pub fn message(&self) -> (res: String)
        ensures
            res@ == signing_error_message(*self),
    {
        let (prefix, m) = match self {
            SigningError::BackendUnavailable(m) => ("Signing backend unavailable: ", m),
            SigningError::SigningFailed(m) => ("Signing failed: ", m),
            SigningError::KeyError(m) => ("Key error: ", m),
            SigningError::HashingFailed(m) => ("Hashing failed: ", m),
        };
        let mut v = chars_of(prefix);
        append_chars(&mut v, &chars_of(m.as_str()));
        string_from_chars(&v)
    }
}

/// A signature over an envelope's hashes, ready to attach to it.
#[derive(Debug)]
pub struct SignatureBlock {
    /// Signer identity, derived from the public key
    pub signer_id: String,
    /// Kind of signer (`agent`)
    pub signer_type: String,
    /// Signature algorithm
    pub algorithm: String,
    /// Public key, Base64
    pub public_key: String,
    /// Signature, Base64
    pub signature: String,
    /// Key identifier for lookup and audit
    pub key_id: String,
    /// The envelope fields the signature covers
    pub covers: Vec<String>,
}

/// The fields every signature covers: `content_hash` and `evidence_hash`.
pub open spec fn covers_standard(covers: Seq<String>) -> bool {
    covers.len() == 2 && covers[0]@ == "content_hash"@ && covers[1]@ == "evidence_hash"@
}

impl SignatureBlock {
    /// The fields every signature covers.
    pub fn standard_covers() -> (res: Vec<String>)
        ensures
            covers_standard(res@),
    {
        let mut v: Vec<String> = Vec::new();
        v.push("content_hash".to_owned());
        v.push("evidence_hash".to_owned());
        v
    }
}

/// The part of a result envelope that signing reads and writes.
#[derive(Debug)]
pub struct ResultEnvelope {
    /// Hash over the policy definitions
    pub content_hash: String,
    /// Hash over the collected evidence
    pub evidence_hash: String,
    /// Signature over both hashes, once signed
    pub signature: Option<SignatureBlock>,
}

// ---------------------------------------------------------------------------
// Signed data and fingerprints
// ---------------------------------------------------------------------------

/// The UTF-8 bytes of a string slice.
pub open spec fn utf8(s: &str) -> Seq<u8> {
    s.spec_bytes()
}

/// Copies a byte slice.
fn bytes_of(b: &[u8]) -> (res: Vec<u8>)
    ensures
        res@ == b@,
{
    let mut v: Vec<u8> = Vec::new();
    let mut i: usize = 0;
    while i < b.len()
        invariant
            i <= b@.len(),
            v@ == b@.take(i as int),
        decreases b.len() - i,
    {
        v.push(b[i]);
        assert(v@ =~= b@.take(i + 1));
        i = i + 1;
    }
    assert(b@.take(b@.len() as int) =~= b@);
    v
}

/// The data a signature covers: `SHA256(content_hash || evidence_hash)`.
pub fn compute_signed_data(content_hash: &str, evidence_hash: &str) -> (res: [u8; 32])
    ensures
        res@ == sha256(utf8(content_hash) + utf8(evidence_hash)),
{
    let mut data = bytes_of(content_hash.as_bytes());
    let tail = bytes_of(evidence_hash.as_bytes());
    let mut i: usize = 0;
    let ghost d0 = data@;
    while i < tail.len()
        invariant
            i <= tail@.len(),
            data@ == d0 + tail@.take(i as int),
        decreases tail.len() - i,
    {
        data.push(tail[i]);
        assert(data@ =~= d0 + tail@.take(i + 1));
        i = i + 1;
    }
    assert(tail@.take(tail@.len() as int) =~= tail@);
    sha256_digest(data.as_slice())
}

pub proof fn lemma_hex_lower_len(data: Seq<u8>)
    ensures
        hex_lower(data).len() == 2 * data.len(),
    decreases data.len(),
{
    if data.len() > 0 {
        lemma_hex_lower_len(data.drop_last());
    }
}

/// The fingerprint of a public key: the first 8 bytes of its SHA-256, as
/// 16 lower-case hexadecimal characters.
pub open spec fn key_fingerprint(public_key: Seq<u8>) -> Seq<char> {
    hex_lower(sha256(public_key).take(8))
}

/// Fingerprint of a public key (16 lower-case hexadecimal characters).
pub fn compute_key_fingerprint(public_key_bytes: &[u8]) -> (res: String)
    ensures
        res@ == key_fingerprint(public_key_bytes@),
        res@.len() == 16,
{
    let digest = sha256_digest(public_key_bytes);
    let mut first: Vec<u8> = Vec::new();
    let mut i: usize = 0;
    while i < 8
        invariant
            i <= 8,
            digest@.len() == 32,
            first@ == digest@.take(i as int),
        decreases 8 - i,
    {
        first.push(digest[i]);
        assert(first@ =~= digest@.take(i + 1));
        i = i + 1;
    }
    proof {
        lemma_hex_lower_len(first@);
    }
    hex_encode(first.as_slice())
}

// ---------------------------------------------------------------------------
// Backends
// ---------------------------------------------------------------------------

/// A cryptographic signing backend.
pub trait SigningBackend {
    /// Whether the backend signs an envelope with these hashes.
    spec fn signs(&self, content_hash: Seq<char>, evidence_hash: Seq<char>) -> bool;

    /// Whether `b` is the block the backend gives for an envelope with these
    /// hashes.
    spec fn gives_block(&self, content_hash: Seq<char>, evidence_hash: Seq<char>, b: SignatureBlock) -> bool;

    /// Whether `e` is the error the backend reports for an envelope with
    /// these hashes.
    spec fn fails_with(&self, content_hash: Seq<char>, evidence_hash: Seq<char>, e: SigningError) -> bool;

    /// Signs `SHA256(content_hash || evidence_hash)` and returns the block
    /// to attach to the envelope.
    fn sign_envelope_hashes(&self, content_hash: &str, evidence_hash: &str) -> (res: Result<
        SignatureBlock,
        SigningError,
    >)
        ensures
            res is Ok <==> self.signs(content_hash@, evidence_hash@),
            res matches Ok(b) ==> self.gives_block(content_hash@, evidence_hash@, b)
                && covers_standard(b.covers@) && b.signer_type@ == "agent"@,
            res matches Err(e) ==> self.fails_with(content_hash@, evidence_hash@, e),
    ;

    /// The algorithm identifier used in `SignatureBlock::algorithm`.
    fn algorithm(&self) -> &str;

    /// Whether the backend can sign.
    fn is_available(&self) -> bool;

    /// The signer identifier derived from the public key.
    fn signer_id(&self) -> Result<String, SigningError>;

    /// The key identifier for lookup and audit.
    fn key_id(&self) -> &str;

    /// The public key, Base64.
    fn export_public_key_base64(&self) -> Result<String, SigningError>;
}

/// Software ECDSA P-256 backend with an ephemeral key.
pub struct SoftwareBackend {
    /// Secret scalar of the ephemeral P-256 key
    secret: Vec<u8>,
    /// Public key, SEC1 uncompressed
    public_key_bytes: Vec<u8>,
    /// Key identifier
    key_id: String,
    /// Signer identifier (derived from the public key fingerprint)
    signer_id: String,
}

impl SoftwareBackend {
    /// The secret scalar of the backend's key.
    pub closed spec fn secret_spec(&self) -> Seq<u8> {
        self.secret@
    }

    /// The backend's public key (SEC1 uncompressed).
    pub closed spec fn public_key_spec(&self) -> Seq<u8> {
        self.public_key_bytes@
    }

    pub closed spec fn key_id_spec(&self) -> Seq<char> {
        self.key_id@
    }

    pub closed spec fn signer_id_spec(&self) -> Seq<char> {
        self.signer_id@
    }

    /// The public key is the one of the secret, and the identifiers are
    /// derived as documented.
    pub open spec fn wf(&self) -> bool {
        &&& p256_public_key(self.secret_spec()) == Some(self.public_key_spec())
        &&& self.signer_id_spec() == "software:sha256:"@ + key_fingerprint(self.public_key_spec())
        &&& self.key_id_spec().len() == "software:ephemeral:"@.len() + 36
        &&& self.key_id_spec().subrange(0, "software:ephemeral:"@.len() as int)
            == "software:ephemeral:"@
        &&& is_uuid_v4_text(self.key_id_spec().skip("software:ephemeral:"@.len() as int))
    }

    /// A backend with a fresh ephemeral key: its public key is the one of
    /// the key, its signer id is derived from the public key's fingerprint,
    /// and its key id is `software:ephemeral:` followed by a random UUID.
    pub fn new() -> (res: Result<Self, SigningError>)
        ensures
            res matches Ok(b) && b.wf(),
    {
        let secret = generate_secret();
        let public_key_bytes = match public_key_of(&secret) {
            Some(k) => k,
            None => {
                return Err(SigningError::KeyError("Failed to derive public key".to_owned()));
            },
        };
        let mut key_id = chars_of("software:ephemeral:");
        let uuid = new_uuid_v4();
        append_chars(&mut key_id, &chars_of(uuid.as_str()));
        let fingerprint = compute_key_fingerprint(&public_key_bytes);
        let mut signer_id = chars_of("software:sha256:");
        append_chars(&mut signer_id, &chars_of(fingerprint.as_str()));
        let b = SoftwareBackend {
            secret,
            public_key_bytes,
            key_id: string_from_chars(&key_id),
            signer_id: string_from_chars(&signer_id),
        };
        assert(b.key_id_spec().subrange(0, "software:ephemeral:"@.len() as int)
            =~= "software:ephemeral:"@);
        assert(b.key_id_spec().skip("software:ephemeral:"@.len() as int) =~= uuid@);
        Ok(b)
    }
}

/// The signature the software backend's key makes over an envelope's hashes.
pub open spec fn software_signature(secret: Seq<u8>, content_hash: Seq<char>, evidence_hash: Seq<char>) -> Option<
    Seq<u8>,
> {
    p256_der_signature(secret, sha256(encode_utf8(content_hash) + encode_utf8(evidence_hash)))
}

impl SigningBackend for SoftwareBackend {
    /// The software backend signs whenever the key makes a signature.
    open spec fn signs(&self, content_hash: Seq<char>, evidence_hash: Seq<char>) -> bool {
        software_signature(self.secret_spec(), content_hash, evidence_hash) is Some
    }

    /// The block carries the backend's identifiers, its public key and the
    /// signature, both in Base64.
    open spec fn gives_block(&self, content_hash: Seq<char>, evidence_hash: Seq<char>, b: SignatureBlock) -> bool {
        &&& b.signer_id@ == self.signer_id_spec()
        &&& b.algorithm@ == "ecdsa-p256"@
        &&& b.public_key@ == base64_standard(self.public_key_spec())
        &&& b.signature@ == base64_standard(
            software_signature(self.secret_spec(), content_hash, evidence_hash).unwrap(),
        )
        &&& b.key_id@ == self.key_id_spec()
    }

    /// The software backend reports only that signing failed.
    open spec fn fails_with(&self, content_hash: Seq<char>, evidence_hash: Seq<char>, e: SigningError) -> bool {
        e matches SigningError::SigningFailed(m) && m@ == "ECDSA signing failed"@
    }

    fn sign_envelope_hashes(&self, content_hash: &str, evidence_hash: &str) -> (res: Result<
        SignatureBlock,
        SigningError,
    >)
        ensures
            ({
                let sig = p256_der_signature(
                    self.secret_spec(),
                    sha256(utf8(content_hash) + utf8(evidence_hash)),
                );
                &&& res is Ok <==> sig is Some
                &&& res matches Ok(b) ==> {
                    &&& b.signer_id@ == self.signer_id_spec()
                    &&& b.algorithm@ == "ecdsa-p256"@
                    &&& b.public_key@ == base64_standard(self.public_key_spec())
                    &&& b.signature@ == base64_standard(sig.unwrap())
                    &&& b.key_id@ == self.key_id_spec()
                }
                &&& res matches Err(e) ==> e matches SigningError::SigningFailed(m) && m@
                    == "ECDSA signing failed"@
            }),
    {
        let signed_data = compute_signed_data(content_hash, evidence_hash);
        let sig = match sign_der(&self.secret, &signed_data) {
            Some(s) => s,
            None => {
                return Err(SigningError::SigningFailed("ECDSA signing failed".to_owned()));
            },
        };
        Ok(
            SignatureBlock {
                signer_id: self.signer_id.clone(),
                signer_type: "agent".to_owned(),
                algorithm: "ecdsa-p256".to_owned(),
                public_key: base64_encode(&self.public_key_bytes),
                signature: base64_encode(&sig),
                key_id: self.key_id.clone(),
                covers: SignatureBlock::standard_covers(),
            },
        )
    }

    fn algorithm(&self) -> (res: &str)
        ensures
            res@ == "ecdsa-p256"@,
    {
        "ecdsa-p256"
    }

    fn is_available(&self) -> (res: bool)
        ensures
            res,
    {
        true
    }

    fn signer_id(&self) -> (res: Result<String, SigningError>)
        ensures
            res matches Ok(s) && s@ == self.signer_id_spec(),
    {
        Ok(self.signer_id.clone())
    }

    fn key_id(&self) -> (res: &str)
        ensures
            res@ == self.key_id_spec(),
    {
        self.key_id.as_str()
    }

    fn export_public_key_base64(&self) -> (res: Result<String, SigningError>)
        ensures
            res matches Ok(s) && s@ == base64_standard(self.public_key_spec()),
    {
        Ok(base64_encode(&self.public_key_bytes))
    }
}

// ---------------------------------------------------------------------------
// Envelopes
// ---------------------------------------------------------------------------

/// Attaches the outcome of a signing attempt to an envelope: a signature
/// becomes the envelope's signature; an error leaves the envelope as it was
/// and is returned.
pub fn attach_signature(envelope: &mut ResultEnvelope, signed: Result<SignatureBlock, SigningError>) -> (res:
    Result<(), SigningError>)
    ensures
        final(envelope).content_hash == old(envelope).content_hash,
        final(envelope).evidence_hash == old(envelope).evidence_hash,
        match signed {
            Ok(b) => res is Ok && final(envelope).signature == Some(b),
            Err(e) => res == Err::<(), SigningError>(e) && final(envelope).signature == old(
                envelope,
            ).signature,
        },
{
    match signed {
        Ok(b) => {
            envelope.signature = Some(b);
            Ok(())
        },
        Err(e) => Err(e),
    }
}

/// The signing backend this library offers on every platform: the
/// software backend with a fresh ephemeral key.
pub fn create_backend() -> (res: Result<SoftwareBackend, SigningError>)
    ensures
        res matches Ok(b) && b.wf(),
{
    SoftwareBackend::new()
}

/// Signs an envelope in place: its signature becomes the backend's
/// signature over its hashes.  On failure the envelope is left unsigned as
/// it was and the error is returned.
pub fn sign_envelope<B: SigningBackend + ?Sized>(envelope: &mut ResultEnvelope, backend: &B) -> (res:
    Result<(), SigningError>)
    ensures
        final(envelope).content_hash == old(envelope).content_hash,
        final(envelope).evidence_hash == old(envelope).evidence_hash,
        res is Ok <==> backend.signs(old(envelope).content_hash@, old(envelope).evidence_hash@),
        res is Ok ==> (final(envelope).signature matches Some(b) && backend.gives_block(
            old(envelope).content_hash@,
            old(envelope).evidence_hash@,
            b,
        ) && covers_standard(b.covers@) && b.signer_type@ == "agent"@),
        res matches Err(e) ==> backend.fails_with(
            old(envelope).content_hash@,
            old(envelope).evidence_hash@,
            e,
        ) && final(envelope).signature == old(envelope).signature,
{
    let signed = backend.sign_envelope_hashes(
        envelope.content_hash.as_str(),
        envelope.evidence_hash.as_str(),
    );
    attach_signature(envelope, signed)
}

/// Signs an envelope if the backend can; `true` when it was signed.  On
/// failure the envelope stays as it was.
pub fn try_sign_envelope<B: SigningBackend + ?Sized>(envelope: &mut ResultEnvelope, backend: &B) -> (res:
    bool)
    ensures
        final(envelope).content_hash == old(envelope).content_hash,
        final(envelope).evidence_hash == old(envelope).evidence_hash,
        res == backend.signs(old(envelope).content_hash@, old(envelope).evidence_hash@),
        res ==> (final(envelope).signature matches Some(b) && backend.gives_block(
            old(envelope).content_hash@,
            old(envelope).evidence_hash@,
            b,
        ) && covers_standard(b.covers@)),
        !res ==> final(envelope).signature == old(envelope).signature,
{
    match sign_envelope(envelope, backend) {
        Ok(()) => true,
        Err(_) => false,
    }
}

} // verus!
