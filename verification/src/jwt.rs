//! RSA-SHA256 signed tokens as `jsonwebtoken` writes and reads them, and RSA
//! key pairs as `rsa` generates them, seen through contracts.
//!
//! Nothing here is proved. What a signature is takes pages to state, so the
//! results of the outside calls have names: [`jwt_signed`], [`jwt_opened`]
//! and [`rsa_public_pem`]. The contracts below say which call gives which,
//! and the one fact about them that the rest of the crate builds on: a token
//! that was signed with a private key opens, under the public key of that
//! private key, to the payload that was signed.

use crate::claims::payload_json;
use crate::claims::text_view;
use crate::claims::ClaimsView;
use crate::json::json_of;
use crate::json::Json;
use vstd::prelude::*;

verus! {

/// Why a token did not open.
#[derive(Clone, Copy, Debug, PartialEq, Eq, Structural)]
pub enum JwtFailure {
    /// The token has the form of a signed token, and its signature is not
    /// the one that the key gives.
    InvalidSignature,
    /// Anything else: the token or the key is not well formed.
    Malformed,
}

/// The token that `jsonwebtoken::encode` returns for a signable payload
/// that holds `payload` (see [`signable`]), an RS256 header and the private
/// key written in `private_pem`; `None` where it returns an error.
pub uninterp spec fn jwt_signed(payload: Json, private_pem: Seq<char>) -> Option<Seq<char>>;

/// What `jsonwebtoken::decode` returns for `token` and the public key
/// written in `public_pem`, when it checks an RS256 signature and no expiry:
/// what the payload holds, or why the token did not open.
pub uninterp spec fn jwt_opened(token: Seq<char>, public_pem: Seq<char>) -> Result<
    Json,
    JwtFailure,
>;

/// The PEM text of the public key that belongs to the private key that
/// `rsa` wrote as `private_pem`, a PKCS#8 PEM text; `None` for a text that
/// is no key of its writing.
pub uninterp spec fn rsa_public_pem(private_pem: Seq<char>) -> Option<Seq<char>>;

/// The number of bits of the modulus of the key that `rsa` generated and
/// wrote as `private_pem`.
pub uninterp spec fn rsa_modulus_bits(private_pem: Seq<char>) -> nat;

/// Whether a token opens under a public key, and to the given payload.
pub open spec fn opens_to(token: Seq<char>, public_pem: Seq<char>, payload: Json) -> bool {
    jwt_opened(token, public_pem) is Ok && jwt_opened(token, public_pem)->Ok_0 == payload
}

/// Whether a payload is one that this crate signs: the JSON object of some
/// claims whose expiry a `u64` holds. It has the members `sub`, `exp`,
/// `ajd` and `jti` and no other, so `decode` finds the `exp` that it asks
/// for, a string under `sub`, and none of the other members that it reads
/// for itself.
pub open spec fn signable(payload: Json) -> bool {
    exists|c: ClaimsView| c.exp <= u64::MAX && payload == #[trigger] payload_json(c)
}

/// `jsonwebtoken::encode` with an RS256 header, after
/// `jsonwebtoken::EncodingKey::from_rsa_pem` has read the key.
///
/// Claims that the result is [`jwt_signed`] of what the payload holds and of
/// the key's text, and that a token that comes back opens again, under the
/// public key of the private key where `rsa` knows it, to that same payload.
#[verifier::external_body]
pub(crate) fn sign(payload: &serde_json::Value, private_pem: &str) -> (r: Option<String>)
    requires
        signable(json_of(*payload)),
    ensures
        text_view(r) == jwt_signed(json_of(*payload), private_pem@),
        r is Some && rsa_public_pem(private_pem@) is Some ==> opens_to(
            r->Some_0@,
            rsa_public_pem(private_pem@)->Some_0,
            json_of(*payload),
        ),
{
    let header = jsonwebtoken::Header::new(jsonwebtoken::Algorithm::RS256);
    let key = jsonwebtoken::EncodingKey::from_rsa_pem(private_pem.as_bytes()).ok()?;
    jsonwebtoken::encode(&header, payload, &key).ok()
}

/// `jsonwebtoken::decode` into a `serde_json::Value`, after
/// `jsonwebtoken::DecodingKey::from_rsa_pem` has read the key, with the
/// validation that `jsonwebtoken::Validation::new` gives for RS256 and its
/// comparison of `exp` with the system time switched off, so that the
/// result depends on the arguments alone.
///
/// Claims that the result is [`jwt_opened`] of the two texts. The error of
/// `jsonwebtoken` is told apart by its kind: `InvalidSignature` stays, every
/// other kind is [`JwtFailure::Malformed`].
#[verifier::external_body]
pub(crate) fn open(token: &str, public_pem: &str) -> (r: Result<serde_json::Value, JwtFailure>)
    ensures
        r is Ok ==> jwt_opened(token@, public_pem@) is Ok,
        r is Ok ==> jwt_opened(token@, public_pem@)->Ok_0 == json_of(r->Ok_0),
        r is Err ==> jwt_opened(token@, public_pem@) is Err,
        r is Err ==> jwt_opened(token@, public_pem@)->Err_0 == r->Err_0,
{
    let mut validation = jsonwebtoken::Validation::new(jsonwebtoken::Algorithm::RS256);
    validation.validate_exp = false;
    let opened = jsonwebtoken::DecodingKey::from_rsa_pem(public_pem.as_bytes()).and_then(
        |key| jsonwebtoken::decode::<serde_json::Value>(token, &key, &validation),
    );
    match opened {
        Ok(data) => Ok(data.claims),
        Err(e) => match e.kind() {
            jsonwebtoken::errors::ErrorKind::InvalidSignature => Err(JwtFailure::InvalidSignature),
            _ => Err(JwtFailure::Malformed),
        },
    }
}

/// `rsa::RsaPrivateKey::new` with the system's random source, then the two
/// keys as PEM texts: the private one by `to_pkcs8_pem`, the public one by
/// `to_public_key_pem` of `rsa::RsaPublicKey::from`.
///
/// Which key comes depends on chance. Claims only that the second text is
/// the public key of the first, and that the modulus has the number of bits
/// that was asked for: the generator goes on until it has. `None` where any
/// of the calls returns an error. (Where the system's random source gives
/// nothing, `OsRng` does not return.)
#[verifier::external_body]
pub(crate) fn generate(bits: usize) -> (r: Option<(String, String)>)
    requires
        2048 <= bits <= 4096,
    ensures
        r is Some ==> rsa_public_pem(r->Some_0.0@) == Some(r->Some_0.1@),
        r is Some ==> rsa_modulus_bits(r->Some_0.0@) == bits,
{
    let private_rsa = rsa::RsaPrivateKey::new(&mut rand::rngs::OsRng, bits).ok()?;
    let private = rsa::pkcs8::ToPrivateKey::to_pkcs8_pem(&private_rsa).ok()?.to_string();
    let public_rsa = rsa::RsaPublicKey::from(&private_rsa);
    let public = rsa::pkcs8::ToPublicKey::to_public_key_pem(&public_rsa).ok()?;
    Some((private, public))
}

} // verus!
