//! The threshold signature scheme, as the logic uses it. A secret key share
//! is held as the 32 big-endian bytes of its field element; public key shares
//! and signature shares in their compressed byte forms.
use vstd::prelude::*;
use crate::common::SignatureShare;

verus! {

/// Whether `share` is a valid signature share of `msg` under the public key
/// share `key` (both in their compressed byte form).
pub uninterp spec fn bls_share_valid(key: Seq<u8>, share: Seq<u8>, msg: Seq<u8>) -> bool;

/// The public key share of a secret key share, or `None` where the bytes
/// are no field element.
pub uninterp spec fn bls_public_share_of(secret: Seq<u8>) -> Option<Seq<u8>>;

/// The signature share of `msg` under a secret key share.
pub uninterp spec fn bls_sign_share_of(secret: Seq<u8>, msg: Seq<u8>) -> Seq<u8>;

/// Relies on `threshold_crypto::PublicKeyShare::verify`; bytes that
/// `from_bytes` refuses as a key or a share make no valid share.
#[verifier::external_body]
pub(crate) fn verify_share(key: &[u8; 48], share: &SignatureShare, msg: &[u8; 32]) -> (r: bool)
    ensures
        r == bls_share_valid(key@, share.bytes@, msg@),
{
    let key = threshold_crypto::PublicKeyShare::from_bytes(key);
    let sig = threshold_crypto::SignatureShare::from_bytes(&share.bytes);
    match (key, sig) {
        (Ok(key), Ok(sig)) => key.verify(&sig, msg),
        _ => false,
    }
}

/// Relies on `threshold_crypto::SecretKeyShare::public_key_share`, the share
/// being read from its bytes by `ff`'s `read_be` and `from_repr` (which
/// refuse a value of the field's modulus or more).
#[verifier::external_body]
pub(crate) fn public_key_share_of(secret: &[u8; 32]) -> (r: Option<[u8; 48]>)
    ensures
        match r {
            Some(k) => bls_public_share_of(secret@) == Some(k@),
            None => bls_public_share_of(secret@) is None,
        },
{
    let mut repr = threshold_crypto::FrRepr::default();
    threshold_crypto::ff::PrimeFieldRepr::read_be(&mut repr, &secret[..]).ok()?;
    let mut fr = <threshold_crypto::Fr as threshold_crypto::ff::PrimeField>::from_repr(repr).ok()?;
    let key = threshold_crypto::SecretKeyShare::from_mut(&mut fr);
    Some(key.public_key_share().to_bytes())
}

/// Relies on `threshold_crypto::SecretKeyShare::sign`, the share being read
/// from its bytes as in `public_key_share_of`: a BLS signature share, which
/// `PublicKeyShare::verify` accepts under the matching public key share.
#[verifier::external_body]
pub(crate) fn sign_share(secret: &[u8; 32], msg: &[u8; 32]) -> (r: Option<SignatureShare>)
    ensures
        r is Some <==> bls_public_share_of(secret@) is Some,
        r matches Some(s) ==> s.bytes@ == bls_sign_share_of(secret@, msg@) && bls_share_valid(
            bls_public_share_of(secret@)->0,
            s.bytes@,
            msg@,
        ),
{
    let mut repr = threshold_crypto::FrRepr::default();
    threshold_crypto::ff::PrimeFieldRepr::read_be(&mut repr, &secret[..]).ok()?;
    let mut fr = <threshold_crypto::Fr as threshold_crypto::ff::PrimeField>::from_repr(repr).ok()?;
    let key = threshold_crypto::SecretKeyShare::from_mut(&mut fr);
    Some(SignatureShare { bytes: key.sign(msg).to_bytes() })
}

} // verus!
