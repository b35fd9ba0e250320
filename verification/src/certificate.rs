//! The self-signed identity that both listeners present.
//!
//! An identity is a fresh P-256 key pair, a certificate for it that is valid
//! from five days before to five days after the moment it was made, and the
//! fingerprint of the public key. Times are seconds since the Unix epoch.

use crate::fingerprint::{base64_decoded, fingerprint, fingerprint_of, DIGEST_BYTES, FINGERPRINT_CHARS};
use vstd::prelude::*;
use vstd::utf8::is_ascii_chars;

verus! {

/// A self-signed certificate with its key and fingerprint.
#[derive(Clone, Debug)]
pub struct SelfCertificate {
    /// The certificate in DER.
    pub certificate: Vec<u8>,
    /// The private key in DER (PKCS#8).
    pub key: Vec<u8>,
    /// SHA-256 of the public key, in base64.
    pub fingerprint: String,
}

/// Why no identity could be made. Without an identity no listener starts.
#[derive(Clone, Copy, Debug, PartialEq, Eq, Structural)]
pub enum CertificateError {
    /// No key pair could be generated.
    KeyGeneration,
    /// The validity window around the given time cannot be written into a
    /// certificate.
    Validity,
    /// The certificate could not be built or serialised.
    Serialization,
}

/// A freshly generated key pair, both halves in DER.
#[derive(Clone, Debug)]
pub struct KeyMaterial {
    /// The key pair in PKCS#8.
    pub private_key: Vec<u8>,
    /// The public key as SubjectPublicKeyInfo.
    pub public_key: Vec<u8>,
}

/// The public key, as SubjectPublicKeyInfo in DER, of the P-256 key pair
/// that `private_key` holds in PKCS#8.
pub uninterp spec fn public_key_of(private_key: Seq<u8>) -> Seq<u8>;

impl KeyMaterial {
    /// The two halves belong together: the public key is that of the key
    /// pair.
    pub open spec fn matched(&self) -> bool {
        self.public_key@ == public_key_of(self.private_key@)
    }

    /// Neither half is empty.
    pub open spec fn complete(&self) -> bool {
        self.private_key@.len() > 0 && self.public_key@.len() > 0
    }
}

impl SelfCertificate {
    /// The fingerprint is that of the public key of the identity's own key
    /// pair.
    pub open spec fn pins_own_key(&self) -> bool {
        self.fingerprint@ == fingerprint_of(public_key_of(self.key@))
    }
}

/// The time for which a certificate is valid, both ends included.
#[derive(Clone, Copy, Debug, PartialEq, Eq, Structural)]
pub struct ValidityWindow {
    /// First second of validity.
    pub not_before: i64,
    /// Last second of validity.
    pub not_after: i64,
}

/// Days of validity on either side of the moment of generation. The margin
/// tolerates clocks that disagree.
pub const VALIDITY_DAYS: i64 = 5;

/// Seconds in a day.
pub const SECONDS_PER_DAY: i64 = 86_400;

/// Seconds of validity on either side of the moment of generation.
pub const VALIDITY_MARGIN: i64 = VALIDITY_DAYS * SECONDS_PER_DAY;

/// First second of the year 0, the earliest time a certificate can state.
pub const EARLIEST_TIME: i64 = -62_167_219_200;

/// Last second of the year 9999, the latest time a certificate can state.
pub const LATEST_TIME: i64 = 253_402_300_799;

/// Whether a certificate can state the time `seconds`.
pub open spec fn certificate_time(seconds: int) -> bool {
    EARLIEST_TIME <= seconds <= LATEST_TIME
}

/// Whether the whole window around `now` can be stated in a certificate.
pub open spec fn window_fits(now: int) -> bool {
    certificate_time(now - VALIDITY_MARGIN) && certificate_time(now + VALIDITY_MARGIN)
}

/// The window around `now`.
pub open spec fn window_around(now: i64) -> ValidityWindow
    recommends
        window_fits(now as int),
{
    ValidityWindow {
        not_before: (now - VALIDITY_MARGIN) as i64,
        not_after: (now + VALIDITY_MARGIN) as i64,
    }
}

impl ValidityWindow {
    /// Whether the window contains the time `seconds`.
    pub open spec fn contains(&self, seconds: int) -> bool {
        self.not_before <= seconds <= self.not_after
    }

    /// Whether the window contains the time `seconds`.
    pub fn covers(&self, seconds: i64) -> (inside: bool)
        ensures
            inside == self.contains(seconds as int),
    {
        self.not_before <= seconds && seconds <= self.not_after
    }
}

/// A host identifier as a certificate can carry it: not empty, and ASCII
/// throughout.
pub open spec fn host_identifier(name: Seq<char>) -> bool {
    name.len() > 0 && is_ascii_chars(name)
}

/// Text that stands for a SHA-256 digest: 44 characters of base64 that
/// decode to 32 bytes.
pub open spec fn is_fingerprint(text: Seq<char>) -> bool {
    &&& text.len() == FINGERPRINT_CHARS
    &&& base64_decoded(text) matches Some(digest) && digest.len() == DIGEST_BYTES
}

/// Whether `name` can stand in a certificate as the host's name.
pub fn is_host_identifier(name: &str) -> (valid: bool)
    ensures
        valid == host_identifier(name@),
{
    !name.is_empty() && name.is_ascii()
}

/// The validity window around `now`: five days to either side. Fails with
/// `Validity` exactly when an end of the window lies outside the years 0 to
/// 9999.
pub fn validity_window(now: i64) -> (window: Result<ValidityWindow, CertificateError>)
    ensures
        window_fits(now as int) ==> window == Ok::<ValidityWindow, CertificateError>(
            window_around(now),
        ),
        !window_fits(now as int) ==> window == Err::<ValidityWindow, CertificateError>(
            CertificateError::Validity,
        ),
        window matches Ok(w) ==> w.contains(now as int) && w.not_after - w.not_before == 2
            * VALIDITY_MARGIN,
{
    if now < EARLIEST_TIME + VALIDITY_MARGIN || now > LATEST_TIME - VALIDITY_MARGIN {
        Err(CertificateError::Validity)
    } else {
        Ok(ValidityWindow { not_before: now - VALIDITY_MARGIN, not_after: now + VALIDITY_MARGIN })
    }
}

/// The error type of the certificate generator, carried through unread.
#[verifier::external_type_specification]
#[verifier::external_body]
pub struct ExRcgenError(rcgen::RcgenError);

/// Calls `time::OffsetDateTime::now_utc` and reads its `unix_timestamp`.
/// Trusted, and nothing is claimed: the result is whatever the clock says.
#[verifier::external_body]
fn current_unix_time() -> (seconds: i64) {
    time::OffsetDateTime::now_utc().unix_timestamp()
}

/// Calls `rcgen::KeyPair::generate` for ECDSA on P-256 with SHA-256 and hands
/// out both halves of the pair through `serialize_der` and `public_key_der`.
/// Trusted: the public key handed out is the one that `public_key_der`
/// gives for the key pair handed out. Which pair comes back, and whether one
/// does, is not claimed: the key is random.
#[verifier::external_body]
fn generate_key_material() -> (material: Result<KeyMaterial, rcgen::RcgenError>)
    ensures
        material matches Ok(pair) ==> pair.public_key@ == public_key_of(pair.private_key@),
{
    let key_pair = rcgen::KeyPair::generate(&rcgen::PKCS_ECDSA_P256_SHA256)?;
    Ok(KeyMaterial { private_key: key_pair.serialize_der(), public_key: key_pair.public_key_der() })
}

/// Calls `rcgen::Certificate::from_params` and `serialize_der` for a
/// certificate that names `common_name` as its subject and its one
/// alternative name, is signed with the key pair in `private_key`, and is
/// valid from `not_before` to `not_after`. Trusted: the call returns. The
/// signature is randomised, so nothing is claimed of the bytes. The
/// `requires` leaves out what the serialiser panics on: a name that is not
/// ASCII and a year outside 0 to 9999.
#[verifier::external_body]
fn self_signed_der(common_name: &str, private_key: &[u8], not_before: i64, not_after: i64) -> (der:
    Result<Vec<u8>, rcgen::RcgenError>)
    requires
        is_ascii_chars(common_name@),
        certificate_time(not_before as int),
        certificate_time(not_after as int),
{
    let mut params = rcgen::CertificateParams::new(vec![common_name.to_string()]);
    params.distinguished_name = rcgen::DistinguishedName::new();
    params.distinguished_name.push(rcgen::DnType::CommonName, common_name);
    params.alg = &rcgen::PKCS_ECDSA_P256_SHA256;
    params.key_pair = Some(rcgen::KeyPair::from_der_and_sign_algo(private_key, params.alg)?);
    let out_of_range = Err(rcgen::RcgenError::Time);
    params.not_before = time::OffsetDateTime::from_unix_timestamp(not_before).or(out_of_range)?;
    let out_of_range = Err(rcgen::RcgenError::Time);
    params.not_after = time::OffsetDateTime::from_unix_timestamp(not_after).or(out_of_range)?;
    rcgen::Certificate::from_params(params)?.serialize_der()
}

/// Puts an identity together from a key pair and the certificate made for
/// it: the fingerprint is that of the pair's public key.
pub fn identity_from_parts(material: KeyMaterial, certificate: Vec<u8>) -> (identity:
    SelfCertificate)
    ensures
        identity.certificate@ == certificate@,
        identity.key@ == material.private_key@,
        identity.fingerprint@ == fingerprint_of(material.public_key@),
        is_fingerprint(identity.fingerprint@),
        material.matched() ==> identity.pins_own_key(),
{
    let text = fingerprint(material.public_key.as_slice());
    SelfCertificate { certificate, key: material.private_key, fingerprint: text }
}

/// What becomes of the key generator's answer: a key pair of which neither
/// half is empty is handed on as it is; a pair with an empty half and a
/// refusal are reported as `KeyGeneration`.
pub fn key_material_from(generated: Result<KeyMaterial, rcgen::RcgenError>) -> (material: Result<
    KeyMaterial,
    CertificateError,
>)
    ensures
        match generated {
            Ok(pair) => if pair.complete() {
                material matches Ok(same) && same.private_key@ == pair.private_key@
                    && same.public_key@ == pair.public_key@ && same.matched() == pair.matched()
            } else {
                material matches Err(e) && e == CertificateError::KeyGeneration
            },
            Err(_) => material matches Err(e) && e == CertificateError::KeyGeneration,
        },
        material matches Ok(same) ==> same.complete(),
{
    match generated {
        Ok(pair) => if pair.private_key.len() == 0 || pair.public_key.len() == 0 {
            Err(CertificateError::KeyGeneration)
        } else {
            Ok(pair)
        },
        Err(_) => Err(CertificateError::KeyGeneration),
    }
}

/// What becomes of the serialiser's answer: a certificate of at least one
/// byte is put together with its key pair into an identity; a certificate of
/// no bytes and a refusal are reported as `Serialization`.
pub fn identity_from(material: KeyMaterial, serialized: Result<Vec<u8>, rcgen::RcgenError>) -> (identity:
    Result<SelfCertificate, CertificateError>)
    ensures
        match serialized {
            Ok(certificate) => if certificate@.len() > 0 {
                identity matches Ok(made) && made.certificate@ == certificate@ && made.key@
                    == material.private_key@ && made.fingerprint@ == fingerprint_of(
                    material.public_key@,
                ) && is_fingerprint(made.fingerprint@) && (material.matched()
                    ==> made.pins_own_key())
            } else {
                identity matches Err(e) && e == CertificateError::Serialization
            },
            Err(_) => identity matches Err(e) && e == CertificateError::Serialization,
        },
        identity matches Ok(made) ==> made.certificate@.len() > 0,
{
    match serialized {
        Ok(certificate) => if certificate.len() == 0 {
            Err(CertificateError::Serialization)
        } else {
            Ok(identity_from_parts(material, certificate))
        },
        Err(_) => Err(CertificateError::Serialization),
    }
}

/// Generates an identity for `common_name` as of the time `now`.
///
/// Fails with `Validity` exactly when the window around `now` cannot be
/// stated. Otherwise the outcome rests with the key generator and the
/// serialiser: a refusal of the one is `KeyGeneration`, of the other
/// `Serialization`. Whatever they do, an identity that comes back holds a
/// certificate and a key of at least one byte each, and carries the
/// fingerprint of its own key pair's public key: 44 characters that decode
/// to 32 bytes.
pub fn generate_certificate_at(common_name: &str, now: i64) -> (identity: Result<
    SelfCertificate,
    CertificateError,
>)
    requires
        host_identifier(common_name@),
    ensures
        !window_fits(now as int) <==> (identity matches Err(e) && e == CertificateError::Validity),
        identity matches Ok(made) ==> is_fingerprint(made.fingerprint@) && made.pins_own_key()
            && made.certificate@.len() > 0 && made.key@.len() > 0,
        identity matches Err(e) ==> e == CertificateError::Validity || e
            == CertificateError::KeyGeneration || e == CertificateError::Serialization,
{
    let window = match validity_window(now) {
        Ok(window) => window,
        Err(error) => {
            return Err(error);
        },
    };
    let material = match key_material_from(generate_key_material()) {
        Ok(material) => material,
        Err(error) => {
            return Err(error);
        },
    };
    let serialized = self_signed_der(
        common_name,
        material.private_key.as_slice(),
        window.not_before,
        window.not_after,
    );
    identity_from(material, serialized)
}

/// Generates a self-signed identity for `common_name`, valid from five days
/// ago to five days from now.
///
/// The clock, the key generator and the serialiser decide whether an identity
/// comes back. One that does holds a certificate and a key of at least one
/// byte each, and carries the fingerprint of its own key pair's public key:
/// 44 characters that decode to 32 bytes. A failure is one of the three that
/// `generate_certificate_at` reports.
pub fn generate_certificate(common_name: &str) -> (identity: Result<
    SelfCertificate,
    CertificateError,
>)
    requires
        host_identifier(common_name@),
    ensures
        identity matches Ok(made) ==> is_fingerprint(made.fingerprint@) && made.pins_own_key()
            && made.certificate@.len() > 0 && made.key@.len() > 0,
        identity matches Err(e) ==> e == CertificateError::Validity || e
            == CertificateError::KeyGeneration || e == CertificateError::Serialization,
{
    generate_certificate_at(common_name, current_unix_time())
}

} // verus!
