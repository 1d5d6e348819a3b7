//! Asymmetric attestation of records.
//!
//! A signature covers the SHA-256 digest of a record's canonical bytes,
//! so its size and checking cost are independent of record size, and any
//! later edit of any field invalidates it. Keys and signatures travel
//! base64-encoded. The Ed25519 operations come from ed25519-dalek and are
//! named, never restated; signing is deterministic, so naming is sound.

use vstd::prelude::*;

use crate::digest::{sha256_digest, sha256_of};
use crate::records::{spec_canonical, PersonRecord};

verus! {

/// The standard base64 rendering of a byte sequence.
pub uninterp spec fn b64_of(bytes: Seq<u8>) -> Seq<char>;

/// The bytes a standard base64 string decodes to, `None` where the
/// string is not well-formed base64.
pub uninterp spec fn b64_decoded(s: Seq<char>) -> Option<Seq<u8>>;

/// The Ed25519 public key derived from 32 private-key bytes.
pub uninterp spec fn ed25519_public_key(private_key: Seq<u8>) -> Seq<u8>;

/// The Ed25519 signature over a message; Ed25519 signing is
/// deterministic, so this is a function of key and message alone.
pub uninterp spec fn ed25519_signature(private_key: Seq<u8>, message: Seq<u8>) -> Seq<u8>;

/// Does Ed25519 verification accept the signature over the message under
/// the public key?
pub uninterp spec fn ed25519_accepts(
    public_key: Seq<u8>,
    message: Seq<u8>,
    signature: Seq<u8>,
) -> bool;

/// Do the 32 bytes parse as a well-formed Ed25519 public key?
pub uninterp spec fn ed25519_pubkey_ok(public_key: Seq<u8>) -> bool;

/// Relies on base64's standard engine `encode` (padded standard
/// alphabet); its `decode` inverts it.
#[verifier::external_body]
fn b64_encode(bytes: &[u8]) -> (r: String)
    ensures
        r@ == b64_of(bytes@),
        b64_decoded(r@) == Some(bytes@),
{
    base64::Engine::encode(&base64::engine::general_purpose::STANDARD, bytes)
}

/// Relies on base64's standard engine `decode`: succeeds exactly on
/// well-formed input and returns the bytes it encodes.
#[verifier::external_body]
fn b64_decode(s: &str) -> (r: Option<Vec<u8>>)
    ensures
        match r {
            Some(b) => b64_decoded(s@) == Some(b@),
            None => b64_decoded(s@) is None,
        },
{
    base64::Engine::decode(&base64::engine::general_purpose::STANDARD, s).ok()
}

/// Relies on ed25519-dalek's `SigningKey::generate` with the operating
/// system's RNG: a fresh 32-byte private key, returned with the public
/// key derived from it.
#[verifier::external_body]
fn ed_generate() -> (r: (Vec<u8>, Vec<u8>))
    ensures
        r.0@.len() == 32,
        r.1@ == ed25519_public_key(r.0@),
        r.1@.len() == 32,
        ed25519_pubkey_ok(r.1@),
{
    let signing_key = ed25519_dalek::SigningKey::generate(&mut rand_core::OsRng);
    (signing_key.to_bytes().to_vec(), signing_key.verifying_key().to_bytes().to_vec())
}

/// Relies on `SigningKey::from_bytes` and `verifying_key`: the public
/// key is a function of the private-key bytes, is 32 bytes long, and
/// parses back as a well-formed public key.
#[verifier::external_body]
fn ed_public_key(private_key: &[u8]) -> (r: Vec<u8>)
    requires
        private_key@.len() == 32,
    ensures
        r@ == ed25519_public_key(private_key@),
        r@.len() == 32,
        ed25519_pubkey_ok(r@),
{
    let key = ed25519_dalek::SigningKey::from_bytes(private_key.try_into().unwrap());
    key.verifying_key().to_bytes().to_vec()
}

/// Relies on dalek's `Signer::sign`: deterministic Ed25519, producing a
/// 64-byte signature that verifies under the key's public key.
#[verifier::external_body]
fn ed_sign(private_key: &[u8], message: &[u8]) -> (r: Vec<u8>)
    requires
        private_key@.len() == 32,
    ensures
        r@ == ed25519_signature(private_key@, message@),
        r@.len() == 64,
        ed25519_accepts(ed25519_public_key(private_key@), message@, r@),
{
    let key = ed25519_dalek::SigningKey::from_bytes(private_key.try_into().unwrap());
    ed25519_dalek::Signer::sign(&key, message).to_bytes().to_vec()
}

/// Relies on `VerifyingKey::from_bytes` and `Verifier::verify`: parsing
/// succeeds on exactly the well-formed public keys, and acceptance is a
/// function of key, message, and signature.
#[verifier::external_body]
fn ed_verify(public_key: &[u8], message: &[u8], signature: &[u8]) -> (r: Option<bool>)
    requires
        public_key@.len() == 32,
        signature@.len() == 64,
    ensures
        match r {
            Some(ok) => ed25519_pubkey_ok(public_key@) && ok == ed25519_accepts(
                public_key@,
                message@,
                signature@,
            ),
            None => !ed25519_pubkey_ok(public_key@),
        },
{
    let key = match ed25519_dalek::VerifyingKey::from_bytes(public_key.try_into().unwrap()) {
        Ok(k) => k,
        Err(_) => {
            return None;
        },
    };
    let sig = ed25519_dalek::Signature::from_bytes(signature.try_into().unwrap());
    Some(ed25519_dalek::Verifier::verify(&key, message, &sig).is_ok())
}

/// A record's attestation: the record identifier, the signature value,
/// and the signer's public key, the latter two base64-encoded.
#[derive(Debug, Clone)]
pub struct RecordSignature {
    pub record_id: String,
    pub base64: String,
    pub pubkey: String,
}

/// Payload of a signing request: the caller-held private key.
#[derive(Debug, Clone)]
pub struct SignRecordPayload {
    pub private_key: String,
}

/// Malformed cryptographic input: a distinct error class, never
/// conflated with a verification that merely returns false.
#[derive(Debug, Clone, Copy, PartialEq, Eq, Structural)]
pub enum SignatureInputError {
    /// A key or signature is not well-formed base64.
    MalformedBase64,
    /// A decoded key or signature has the wrong byte length.
    WrongLength,
    /// The public-key bytes do not parse as an Ed25519 key.
    InvalidPublicKey,
}

/// A unique attestation already exists.
#[derive(Debug, Clone, Copy, PartialEq, Eq, Structural)]
pub enum AttestationConflict {
    /// The principal already has a stored public key.
    KeyExists,
}

/// The digest a record's signature covers: SHA-256 over the canonical
/// serialization.
pub open spec fn spec_record_digest(r: crate::records::RecordView) -> Seq<u8> {
    sha256_of(spec_canonical(r))
}

/// A fresh keypair, both halves base64-encoded. The private key is
/// returned to the caller once and never persisted.
pub fn generate_signing_keypair() -> (r: (String, String))
    ensures
        b64_decoded(r.0@) matches Some(k) && k.len() == 32 && b64_decoded(r.1@) == Some(
            ed25519_public_key(k),
        ),
{
    let (private_bytes, public_bytes) = ed_generate();
    (b64_encode(private_bytes.as_slice()), b64_encode(public_bytes.as_slice()))
}

/// Sign a record with a base64 private key: the signature covers the
/// digest of the record's canonical bytes and verifies under the derived
/// public key, which is returned alongside it. Decoding failures are
/// input errors, not silent no-ops.
pub fn sign_record(record: &PersonRecord, key: &str) -> (r: Result<
    RecordSignature,
    SignatureInputError,
>)
    ensures
        b64_decoded(key@) is None ==> r == Err::<RecordSignature, SignatureInputError>(
            SignatureInputError::MalformedBase64,
        ),
        b64_decoded(key@) matches Some(kb) ==> (kb.len() != 32 ==> r == Err::<
            RecordSignature,
            SignatureInputError,
        >(SignatureInputError::WrongLength)),
        b64_decoded(key@) matches Some(kb) ==> (kb.len() == 32 ==> (r matches Ok(s)
            && s.record_id@ == record.id@ && s.base64@ == b64_of(
            ed25519_signature(kb, spec_record_digest(record@)),
        ) && s.pubkey@ == b64_of(ed25519_public_key(kb)) && b64_decoded(s.base64@) == Some(
            ed25519_signature(kb, spec_record_digest(record@)),
        ) && b64_decoded(s.pubkey@) == Some(ed25519_public_key(kb)) && ed25519_signature(
            kb,
            spec_record_digest(record@),
        ).len() == 64 && ed25519_public_key(kb).len() == 32 && ed25519_pubkey_ok(
            ed25519_public_key(kb),
        ) && ed25519_accepts(
            ed25519_public_key(kb),
            spec_record_digest(record@),
            ed25519_signature(kb, spec_record_digest(record@)),
        ))),
{
    let key_bytes = match b64_decode(key) {
        None => {
            return Err(SignatureInputError::MalformedBase64);
        },
        Some(b) => b,
    };
    if key_bytes.len() != 32 {
        return Err(SignatureInputError::WrongLength);
    }
    let record_bytes = crate::records::canonical_bytes(record);
    let record_hash = sha256_digest(record_bytes.as_slice());
    let signature = ed_sign(key_bytes.as_slice(), record_hash.as_slice());
    let public_key = ed_public_key(key_bytes.as_slice());
    Ok(
        RecordSignature {
            record_id: record.id.clone(),
            base64: b64_encode(signature.as_slice()),
            pubkey: b64_encode(public_key.as_slice()),
        },
    )
}

/// What checking a signature against a record must yield: a decoding or
/// length problem is an input error, a well-formed pair yields exactly
/// the Ed25519 verdict over the record's current digest.
pub open spec fn spec_verify_verdict(
    record: crate::records::RecordView,
    signature_b64: Seq<char>,
    pubkey_b64: Seq<char>,
) -> Result<bool, SignatureInputError> {
    match (b64_decoded(signature_b64), b64_decoded(pubkey_b64)) {
        (Some(sb), Some(pb)) => if sb.len() != 64 || pb.len() != 32 {
            Err(SignatureInputError::WrongLength)
        } else if !ed25519_pubkey_ok(pb) {
            Err(SignatureInputError::InvalidPublicKey)
        } else {
            Ok(ed25519_accepts(pb, spec_record_digest(record), sb))
        },
        _ => Err(SignatureInputError::MalformedBase64),
    }
}

/// Check a record's signature against its current content and the given
/// public key. `Ok(false)` means the content, key, or signature does not
/// match; errors are reserved for malformed inputs.
pub fn verify_record(record: &PersonRecord, signature: &RecordSignature) -> (r: Result<
    bool,
    SignatureInputError,
>)
    ensures
        r == spec_verify_verdict(record@, signature.base64@, signature.pubkey@),
{
    let signature_bytes = match b64_decode(signature.base64.as_str()) {
        None => {
            return Err(SignatureInputError::MalformedBase64);
        },
        Some(b) => b,
    };
    let public_key_bytes = match b64_decode(signature.pubkey.as_str()) {
        None => {
            return Err(SignatureInputError::MalformedBase64);
        },
        Some(b) => b,
    };
    if signature_bytes.len() != 64 || public_key_bytes.len() != 32 {
        return Err(SignatureInputError::WrongLength);
    }
    let record_bytes = crate::records::canonical_bytes(record);
    let record_hash = sha256_digest(record_bytes.as_slice());
    match ed_verify(
        public_key_bytes.as_slice(),
        record_hash.as_slice(),
        signature_bytes.as_slice(),
    ) {
        None => Err(SignatureInputError::InvalidPublicKey),
        Some(ok) => Ok(ok),
    }
}

/// A signature freshly produced for a record verifies as true against
/// the record's unchanged content: the stored values a signing operation
/// hands out pass verification.
pub proof fn lemma_fresh_signature_verifies(
    record: crate::records::RecordView,
    key: Seq<u8>,
    signature_b64: Seq<char>,
    pubkey_b64: Seq<char>,
)
    requires
        b64_decoded(signature_b64) == Some(ed25519_signature(key, spec_record_digest(record))),
        b64_decoded(pubkey_b64) == Some(ed25519_public_key(key)),
        ed25519_signature(key, spec_record_digest(record)).len() == 64,
        ed25519_public_key(key).len() == 32,
        ed25519_pubkey_ok(ed25519_public_key(key)),
        ed25519_accepts(
            ed25519_public_key(key),
            spec_record_digest(record),
            ed25519_signature(key, spec_record_digest(record)),
        ),
    ensures
        spec_verify_verdict(record, signature_b64, pubkey_b64) == Ok::<
            bool,
            SignatureInputError,
        >(true),
{
}

/// Key generation for a principal: refused with a conflict while a
/// public key is already stored, so a keypair is never silently rotated
/// under signatures that trust the old key.
pub fn generate_keypair_for(existing_public_key: Option<&String>) -> (r: Result<
    (String, String),
    AttestationConflict,
>)
    ensures
        existing_public_key is Some ==> r == Err::<(String, String), AttestationConflict>(
            AttestationConflict::KeyExists,
        ),
        existing_public_key is None ==> (r matches Ok(p) && (b64_decoded(p.0@) matches Some(k)
            && k.len() == 32 && b64_decoded(p.1@) == Some(ed25519_public_key(k)))),
{
    match existing_public_key {
        Some(_) => Err(AttestationConflict::KeyExists),
        None => Ok(generate_signing_keypair()),
    }
}

/// Why a signing request was rejected.
#[derive(Debug, Clone, Copy, PartialEq, Eq, Structural)]
pub enum SignRejection {
    /// The record already carries a signature; it must be removed first.
    Conflict,
    /// The supplied key was malformed.
    Input(SignatureInputError),
}

/// Signing gated on the record's attestation state: at most one active
/// signature exists per record, so a second signing request is rejected
/// until the first signature is explicitly removed.
pub fn sign_record_checked(
    record: &PersonRecord,
    existing: Option<&RecordSignature>,
    key: &str,
) -> (r: Result<RecordSignature, SignRejection>)
    ensures
        existing is Some ==> r == Err::<RecordSignature, SignRejection>(SignRejection::Conflict),
        existing is None ==> (b64_decoded(key@) matches Some(kb) ==> (kb.len() == 32 ==> r
            is Ok)),
        existing is None ==> match r {
            Ok(s) => b64_decoded(key@) matches Some(kb) && kb.len() == 32 && s.record_id@
                == record.id@ && s.base64@ == b64_of(
                ed25519_signature(kb, spec_record_digest(record@)),
            ) && s.pubkey@ == b64_of(ed25519_public_key(kb)) && b64_decoded(s.base64@) == Some(
                ed25519_signature(kb, spec_record_digest(record@)),
            ) && b64_decoded(s.pubkey@) == Some(ed25519_public_key(kb)),
            Err(e) => e matches SignRejection::Input(ie) && Err::<
                RecordSignature,
                SignatureInputError,
            >(ie) == spec_sign_failure(key@),
        },
{
    if existing.is_some() {
        return Err(SignRejection::Conflict);
    }
    match sign_record(record, key) {
        Ok(s) => Ok(s),
        Err(e) => Err(SignRejection::Input(e)),
    }
}

/// The input error signing a record with this key must report, where it
/// must fail.
pub open spec fn spec_sign_failure(key: Seq<char>) -> Result<
    RecordSignature,
    SignatureInputError,
> {
    match b64_decoded(key) {
        None => Err(SignatureInputError::MalformedBase64),
        Some(_) => Err(SignatureInputError::WrongLength),
    }
}

/// Outcome of a key-reset request.
#[derive(Debug, Clone, Copy, PartialEq, Eq, Structural)]
pub enum ResetOutcome {
    /// A public key was stored; it is to be cleared.
    Cleared,
    /// No public key was stored; there is nothing to clear.
    NothingStored,
}

/// The key-reset decision: clearing is meaningful exactly while a public
/// key is stored; resetting an absent key reports that nothing stood.
pub fn reset_keypair_for(existing_public_key: Option<&String>) -> (r: ResetOutcome)
    ensures
        r == ResetOutcome::Cleared <==> existing_public_key is Some,
        r == ResetOutcome::NothingStored <==> existing_public_key is None,
{
    match existing_public_key {
        Some(_) => ResetOutcome::Cleared,
        None => ResetOutcome::NothingStored,
    }
}

/// Only the signer of a record's signature, or the designated static
/// admin, may remove it.
pub fn may_unsign(username: &str, signed_by: &str, static_admin: &str) -> (r: bool)
    ensures
        r == (username@ == signed_by@ || username@ == static_admin@),
{
    if crate::strutil::str_eq(username, signed_by) {
        true
    } else {
        crate::strutil::str_eq(username, static_admin)
    }
}

} // verus!
