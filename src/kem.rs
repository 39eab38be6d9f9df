//! The key-encapsulation primitives of each supported algorithm, reached through
//! pqcrypto and handed to the rest of the library as plain bytes.

use crate::algorithm_dictionary::{
    ciphertext_len, is_supported, public_key_len, secret_key_len, shared_secret_len,
};
use crate::algorithm_dictionary as ids;
use pqcrypto::kem::{firesaber, frodokem640aes, frodokem640shake, frodokem976aes, frodokem976shake, frodokem1344aes, frodokem1344shake, kyber512, kyber768, kyber1024, kyber51290s, kyber76890s, kyber102490s, lightsaber, mceliece348864, mceliece348864f, mceliece460896, mceliece460896f, mceliece6688128, mceliece6688128f, mceliece6960119, mceliece6960119f, mceliece8192128, mceliece8192128f, ntruhps2048509, ntruhps2048677, ntruhps4096821, ntruhrss701, saber};
use pqcrypto::traits::kem::{Ciphertext as _, PublicKey as _, SecretKey as _, SharedSecret as _};
use vstd::prelude::*;

verus! {

/// What `pqcrypto::kem::firesaber::decapsulate` returns for a ciphertext and a secret key
/// of the right lengths; it depends on those bytes alone.
pub uninterp spec fn firesaber_decapsulated(ct: Seq<u8>, sk: Seq<u8>) -> Seq<u8>;

/// What `pqcrypto::kem::frodokem640aes::decapsulate` returns for a ciphertext and a secret key
/// of the right lengths; it depends on those bytes alone.
pub uninterp spec fn frodokem640aes_decapsulated(ct: Seq<u8>, sk: Seq<u8>) -> Seq<u8>;

/// What `pqcrypto::kem::frodokem640shake::decapsulate` returns for a ciphertext and a secret key
/// of the right lengths; it depends on those bytes alone.
pub uninterp spec fn frodokem640shake_decapsulated(ct: Seq<u8>, sk: Seq<u8>) -> Seq<u8>;

/// What `pqcrypto::kem::frodokem976aes::decapsulate` returns for a ciphertext and a secret key
/// of the right lengths; it depends on those bytes alone.
pub uninterp spec fn frodokem976aes_decapsulated(ct: Seq<u8>, sk: Seq<u8>) -> Seq<u8>;

/// What `pqcrypto::kem::frodokem976shake::decapsulate` returns for a ciphertext and a secret key
/// of the right lengths; it depends on those bytes alone.
pub uninterp spec fn frodokem976shake_decapsulated(ct: Seq<u8>, sk: Seq<u8>) -> Seq<u8>;

/// What `pqcrypto::kem::frodokem1344aes::decapsulate` returns for a ciphertext and a secret key
/// of the right lengths; it depends on those bytes alone.
pub uninterp spec fn frodokem1344aes_decapsulated(ct: Seq<u8>, sk: Seq<u8>) -> Seq<u8>;

/// What `pqcrypto::kem::frodokem1344shake::decapsulate` returns for a ciphertext and a secret key
/// of the right lengths; it depends on those bytes alone.
pub uninterp spec fn frodokem1344shake_decapsulated(ct: Seq<u8>, sk: Seq<u8>) -> Seq<u8>;

/// What `pqcrypto::kem::kyber512::decapsulate` returns for a ciphertext and a secret key
/// of the right lengths; it depends on those bytes alone.
pub uninterp spec fn kyber512_decapsulated(ct: Seq<u8>, sk: Seq<u8>) -> Seq<u8>;

/// What `pqcrypto::kem::kyber768::decapsulate` returns for a ciphertext and a secret key
/// of the right lengths; it depends on those bytes alone.
pub uninterp spec fn kyber768_decapsulated(ct: Seq<u8>, sk: Seq<u8>) -> Seq<u8>;

/// What `pqcrypto::kem::kyber1024::decapsulate` returns for a ciphertext and a secret key
/// of the right lengths; it depends on those bytes alone.
pub uninterp spec fn kyber1024_decapsulated(ct: Seq<u8>, sk: Seq<u8>) -> Seq<u8>;

/// What `pqcrypto::kem::kyber51290s::decapsulate` returns for a ciphertext and a secret key
/// of the right lengths; it depends on those bytes alone.
pub uninterp spec fn kyber51290s_decapsulated(ct: Seq<u8>, sk: Seq<u8>) -> Seq<u8>;

/// What `pqcrypto::kem::kyber76890s::decapsulate` returns for a ciphertext and a secret key
/// of the right lengths; it depends on those bytes alone.
pub uninterp spec fn kyber76890s_decapsulated(ct: Seq<u8>, sk: Seq<u8>) -> Seq<u8>;

/// What `pqcrypto::kem::kyber102490s::decapsulate` returns for a ciphertext and a secret key
/// of the right lengths; it depends on those bytes alone.
pub uninterp spec fn kyber102490s_decapsulated(ct: Seq<u8>, sk: Seq<u8>) -> Seq<u8>;

/// What `pqcrypto::kem::lightsaber::decapsulate` returns for a ciphertext and a secret key
/// of the right lengths; it depends on those bytes alone.
pub uninterp spec fn lightsaber_decapsulated(ct: Seq<u8>, sk: Seq<u8>) -> Seq<u8>;

/// What `pqcrypto::kem::mceliece348864::decapsulate` returns for a ciphertext and a secret key
/// of the right lengths; it depends on those bytes alone.
pub uninterp spec fn mceliece348864_decapsulated(ct: Seq<u8>, sk: Seq<u8>) -> Seq<u8>;

/// What `pqcrypto::kem::mceliece348864f::decapsulate` returns for a ciphertext and a secret key
/// of the right lengths; it depends on those bytes alone.
pub uninterp spec fn mceliece348864f_decapsulated(ct: Seq<u8>, sk: Seq<u8>) -> Seq<u8>;

/// What `pqcrypto::kem::mceliece460896::decapsulate` returns for a ciphertext and a secret key
/// of the right lengths; it depends on those bytes alone.
pub uninterp spec fn mceliece460896_decapsulated(ct: Seq<u8>, sk: Seq<u8>) -> Seq<u8>;

/// What `pqcrypto::kem::mceliece460896f::decapsulate` returns for a ciphertext and a secret key
/// of the right lengths; it depends on those bytes alone.
pub uninterp spec fn mceliece460896f_decapsulated(ct: Seq<u8>, sk: Seq<u8>) -> Seq<u8>;

/// What `pqcrypto::kem::mceliece6688128::decapsulate` returns for a ciphertext and a secret key
/// of the right lengths; it depends on those bytes alone.
pub uninterp spec fn mceliece6688128_decapsulated(ct: Seq<u8>, sk: Seq<u8>) -> Seq<u8>;

/// What `pqcrypto::kem::mceliece6688128f::decapsulate` returns for a ciphertext and a secret key
/// of the right lengths; it depends on those bytes alone.
pub uninterp spec fn mceliece6688128f_decapsulated(ct: Seq<u8>, sk: Seq<u8>) -> Seq<u8>;

/// What `pqcrypto::kem::mceliece6960119::decapsulate` returns for a ciphertext and a secret key
/// of the right lengths; it depends on those bytes alone.
pub uninterp spec fn mceliece6960119_decapsulated(ct: Seq<u8>, sk: Seq<u8>) -> Seq<u8>;

/// What `pqcrypto::kem::mceliece6960119f::decapsulate` returns for a ciphertext and a secret key
/// of the right lengths; it depends on those bytes alone.
pub uninterp spec fn mceliece6960119f_decapsulated(ct: Seq<u8>, sk: Seq<u8>) -> Seq<u8>;

/// What `pqcrypto::kem::mceliece8192128::decapsulate` returns for a ciphertext and a secret key
/// of the right lengths; it depends on those bytes alone.
pub uninterp spec fn mceliece8192128_decapsulated(ct: Seq<u8>, sk: Seq<u8>) -> Seq<u8>;

/// What `pqcrypto::kem::mceliece8192128f::decapsulate` returns for a ciphertext and a secret key
/// of the right lengths; it depends on those bytes alone.
pub uninterp spec fn mceliece8192128f_decapsulated(ct: Seq<u8>, sk: Seq<u8>) -> Seq<u8>;

/// What `pqcrypto::kem::ntruhps2048509::decapsulate` returns for a ciphertext and a secret key
/// of the right lengths; it depends on those bytes alone.
pub uninterp spec fn ntruhps2048509_decapsulated(ct: Seq<u8>, sk: Seq<u8>) -> Seq<u8>;

/// What `pqcrypto::kem::ntruhps2048677::decapsulate` returns for a ciphertext and a secret key
/// of the right lengths; it depends on those bytes alone.
pub uninterp spec fn ntruhps2048677_decapsulated(ct: Seq<u8>, sk: Seq<u8>) -> Seq<u8>;

/// What `pqcrypto::kem::ntruhps4096821::decapsulate` returns for a ciphertext and a secret key
/// of the right lengths; it depends on those bytes alone.
pub uninterp spec fn ntruhps4096821_decapsulated(ct: Seq<u8>, sk: Seq<u8>) -> Seq<u8>;

/// What `pqcrypto::kem::ntruhrss701::decapsulate` returns for a ciphertext and a secret key
/// of the right lengths; it depends on those bytes alone.
pub uninterp spec fn ntruhrss701_decapsulated(ct: Seq<u8>, sk: Seq<u8>) -> Seq<u8>;

/// What `pqcrypto::kem::saber::decapsulate` returns for a ciphertext and a secret key
/// of the right lengths; it depends on those bytes alone.
pub uninterp spec fn saber_decapsulated(ct: Seq<u8>, sk: Seq<u8>) -> Seq<u8>;

/// The shared secret that decapsulating `ct` with `sk` yields under `algorithm`.
pub open spec fn decapsulated(algorithm: u8, ct: Seq<u8>, sk: Seq<u8>) -> Seq<u8> {
    if algorithm == ids::FIRESABER {
        firesaber_decapsulated(ct, sk)
    } else if algorithm == ids::FRODOKEM640AES {
        frodokem640aes_decapsulated(ct, sk)
    } else if algorithm == ids::FRODOKEM640SHAKE {
        frodokem640shake_decapsulated(ct, sk)
    } else if algorithm == ids::FRODOKEM976AES {
        frodokem976aes_decapsulated(ct, sk)
    } else if algorithm == ids::FRODOKEM976SHAKE {
        frodokem976shake_decapsulated(ct, sk)
    } else if algorithm == ids::FRODOKEM1344AES {
        frodokem1344aes_decapsulated(ct, sk)
    } else if algorithm == ids::FRODOKEM1344SHAKE {
        frodokem1344shake_decapsulated(ct, sk)
    } else if algorithm == ids::KYBER512 {
        kyber512_decapsulated(ct, sk)
    } else if algorithm == ids::KYBER768 {
        kyber768_decapsulated(ct, sk)
    } else if algorithm == ids::KYBER1024 {
        kyber1024_decapsulated(ct, sk)
    } else if algorithm == ids::KYBER51290S {
        kyber51290s_decapsulated(ct, sk)
    } else if algorithm == ids::KYBER76890S {
        kyber76890s_decapsulated(ct, sk)
    } else if algorithm == ids::KYBER102490S {
        kyber102490s_decapsulated(ct, sk)
    } else if algorithm == ids::LIGHTSABER {
        lightsaber_decapsulated(ct, sk)
    } else if algorithm == ids::MCELIECE348864 {
        mceliece348864_decapsulated(ct, sk)
    } else if algorithm == ids::MCELIECE348864F {
        mceliece348864f_decapsulated(ct, sk)
    } else if algorithm == ids::MCELIECE460896 {
        mceliece460896_decapsulated(ct, sk)
    } else if algorithm == ids::MCELIECE460896F {
        mceliece460896f_decapsulated(ct, sk)
    } else if algorithm == ids::MCELIECE6688128 {
        mceliece6688128_decapsulated(ct, sk)
    } else if algorithm == ids::MCELIECE6688128F {
        mceliece6688128f_decapsulated(ct, sk)
    } else if algorithm == ids::MCELIECE6960119 {
        mceliece6960119_decapsulated(ct, sk)
    } else if algorithm == ids::MCELIECE6960119F {
        mceliece6960119f_decapsulated(ct, sk)
    } else if algorithm == ids::MCELIECE8192128 {
        mceliece8192128_decapsulated(ct, sk)
    } else if algorithm == ids::MCELIECE8192128F {
        mceliece8192128f_decapsulated(ct, sk)
    } else if algorithm == ids::NTRUHPS2048509 {
        ntruhps2048509_decapsulated(ct, sk)
    } else if algorithm == ids::NTRUHPS2048677 {
        ntruhps2048677_decapsulated(ct, sk)
    } else if algorithm == ids::NTRUHPS4096821 {
        ntruhps4096821_decapsulated(ct, sk)
    } else if algorithm == ids::NTRUHRSS701 {
        ntruhrss701_decapsulated(ct, sk)
    } else if algorithm == ids::SABER {
        saber_decapsulated(ct, sk)
    } else {
        Seq::empty()
    }
}

/// Relies on `pqcrypto::kem::firesaber::keypair`: a fresh key pair, whose public and
/// secret keys are byte arrays of 1312 and 3040 bytes.
#[verifier::external_body]
#[inline(never)]
fn firesaber_keypair() -> (r: (Vec<u8>, Vec<u8>))
    ensures
        r.0@.len() == 1312,
        r.1@.len() == 3040,
{
    let (pk, sk) = firesaber::keypair();
    (pk.as_bytes().to_vec(), sk.as_bytes().to_vec())
}

/// Relies on `pqcrypto::kem::firesaber::encapsulate`, after `PublicKey::from_bytes`, which
/// refuses every length but 1312: a ciphertext of 1472 bytes and a shared secret of 32.
#[verifier::external_body]
#[inline(never)]
fn firesaber_encapsulate(pk: &[u8]) -> (r: Option<(Vec<u8>, Vec<u8>)>)
    ensures
        r is Some <==> pk@.len() == 1312,
        r matches Some(p) ==> p.0@.len() == 1472 && p.1@.len() == 32,
{
    match firesaber::PublicKey::from_bytes(pk) {
        Ok(pk) => {
            let (ss, ct) = firesaber::encapsulate(&pk);
            Some((ct.as_bytes().to_vec(), ss.as_bytes().to_vec()))
        }
        Err(_) => None,
    }
}

/// Relies on `pqcrypto::kem::firesaber::decapsulate`, after `from_bytes` on the ciphertext
/// (1472 bytes) and the secret key (3040 bytes), which refuses other lengths.
#[verifier::external_body]
#[inline(never)]
fn firesaber_decapsulate(ct: &[u8], sk: &[u8]) -> (r: Option<Vec<u8>>)
    ensures
        r is Some <==> (ct@.len() == 1472 && sk@.len() == 3040),
        r matches Some(s) ==> s@.len() == 32,
        r matches Some(s) ==> s@ == firesaber_decapsulated(ct@, sk@),
{
    match (firesaber::Ciphertext::from_bytes(ct), firesaber::SecretKey::from_bytes(sk)) {
        (Ok(ct), Ok(sk)) => Some(firesaber::decapsulate(&ct, &sk).as_bytes().to_vec()),
        _ => None,
    }
}

/// Relies on `pqcrypto::kem::frodokem640aes::keypair`: a fresh key pair, whose public and
/// secret keys are byte arrays of 9616 and 19888 bytes.
#[verifier::external_body]
#[inline(never)]
fn frodokem640aes_keypair() -> (r: (Vec<u8>, Vec<u8>))
    ensures
        r.0@.len() == 9616,
        r.1@.len() == 19888,
{
    let (pk, sk) = frodokem640aes::keypair();
    (pk.as_bytes().to_vec(), sk.as_bytes().to_vec())
}

/// Relies on `pqcrypto::kem::frodokem640aes::encapsulate`, after `PublicKey::from_bytes`, which
/// refuses every length but 9616: a ciphertext of 9720 bytes and a shared secret of 16.
#[verifier::external_body]
#[inline(never)]
fn frodokem640aes_encapsulate(pk: &[u8]) -> (r: Option<(Vec<u8>, Vec<u8>)>)
    ensures
        r is Some <==> pk@.len() == 9616,
        r matches Some(p) ==> p.0@.len() == 9720 && p.1@.len() == 16,
{
    match frodokem640aes::PublicKey::from_bytes(pk) {
        Ok(pk) => {
            let (ss, ct) = frodokem640aes::encapsulate(&pk);
            Some((ct.as_bytes().to_vec(), ss.as_bytes().to_vec()))
        }
        Err(_) => None,
    }
}

/// Relies on `pqcrypto::kem::frodokem640aes::decapsulate`, after `from_bytes` on the ciphertext
/// (9720 bytes) and the secret key (19888 bytes), which refuses other lengths.
#[verifier::external_body]
#[inline(never)]
fn frodokem640aes_decapsulate(ct: &[u8], sk: &[u8]) -> (r: Option<Vec<u8>>)
    ensures
        r is Some <==> (ct@.len() == 9720 && sk@.len() == 19888),
        r matches Some(s) ==> s@.len() == 16,
        r matches Some(s) ==> s@ == frodokem640aes_decapsulated(ct@, sk@),
{
    match (frodokem640aes::Ciphertext::from_bytes(ct), frodokem640aes::SecretKey::from_bytes(sk)) {
        (Ok(ct), Ok(sk)) => Some(frodokem640aes::decapsulate(&ct, &sk).as_bytes().to_vec()),
        _ => None,
    }
}

/// Relies on `pqcrypto::kem::frodokem640shake::keypair`: a fresh key pair, whose public and
/// secret keys are byte arrays of 9616 and 19888 bytes.
#[verifier::external_body]
#[inline(never)]
fn frodokem640shake_keypair() -> (r: (Vec<u8>, Vec<u8>))
    ensures
        r.0@.len() == 9616,
        r.1@.len() == 19888,
{
    let (pk, sk) = frodokem640shake::keypair();
    (pk.as_bytes().to_vec(), sk.as_bytes().to_vec())
}

/// Relies on `pqcrypto::kem::frodokem640shake::encapsulate`, after `PublicKey::from_bytes`, which
/// refuses every length but 9616: a ciphertext of 9720 bytes and a shared secret of 16.
#[verifier::external_body]
#[inline(never)]
fn frodokem640shake_encapsulate(pk: &[u8]) -> (r: Option<(Vec<u8>, Vec<u8>)>)
    ensures
        r is Some <==> pk@.len() == 9616,
        r matches Some(p) ==> p.0@.len() == 9720 && p.1@.len() == 16,
{
    match frodokem640shake::PublicKey::from_bytes(pk) {
        Ok(pk) => {
            let (ss, ct) = frodokem640shake::encapsulate(&pk);
            Some((ct.as_bytes().to_vec(), ss.as_bytes().to_vec()))
        }
        Err(_) => None,
    }
}

/// Relies on `pqcrypto::kem::frodokem640shake::decapsulate`, after `from_bytes` on the ciphertext
/// (9720 bytes) and the secret key (19888 bytes), which refuses other lengths.
#[verifier::external_body]
#[inline(never)]
fn frodokem640shake_decapsulate(ct: &[u8], sk: &[u8]) -> (r: Option<Vec<u8>>)
    ensures
        r is Some <==> (ct@.len() == 9720 && sk@.len() == 19888),
        r matches Some(s) ==> s@.len() == 16,
        r matches Some(s) ==> s@ == frodokem640shake_decapsulated(ct@, sk@),
{
    match (frodokem640shake::Ciphertext::from_bytes(ct), frodokem640shake::SecretKey::from_bytes(sk)) {
        (Ok(ct), Ok(sk)) => Some(frodokem640shake::decapsulate(&ct, &sk).as_bytes().to_vec()),
        _ => None,
    }
}

/// Relies on `pqcrypto::kem::frodokem976aes::keypair`: a fresh key pair, whose public and
/// secret keys are byte arrays of 15632 and 31296 bytes.
#[verifier::external_body]
#[inline(never)]
fn frodokem976aes_keypair() -> (r: (Vec<u8>, Vec<u8>))
    ensures
        r.0@.len() == 15632,
        r.1@.len() == 31296,
{
    let (pk, sk) = frodokem976aes::keypair();
    (pk.as_bytes().to_vec(), sk.as_bytes().to_vec())
}

/// Relies on `pqcrypto::kem::frodokem976aes::encapsulate`, after `PublicKey::from_bytes`, which
/// refuses every length but 15632: a ciphertext of 15744 bytes and a shared secret of 24.
#[verifier::external_body]
#[inline(never)]
fn frodokem976aes_encapsulate(pk: &[u8]) -> (r: Option<(Vec<u8>, Vec<u8>)>)
    ensures
        r is Some <==> pk@.len() == 15632,
        r matches Some(p) ==> p.0@.len() == 15744 && p.1@.len() == 24,
{
    match frodokem976aes::PublicKey::from_bytes(pk) {
        Ok(pk) => {
            let (ss, ct) = frodokem976aes::encapsulate(&pk);
            Some((ct.as_bytes().to_vec(), ss.as_bytes().to_vec()))
        }
        Err(_) => None,
    }
}

/// Relies on `pqcrypto::kem::frodokem976aes::decapsulate`, after `from_bytes` on the ciphertext
/// (15744 bytes) and the secret key (31296 bytes), which refuses other lengths.
#[verifier::external_body]
#[inline(never)]
fn frodokem976aes_decapsulate(ct: &[u8], sk: &[u8]) -> (r: Option<Vec<u8>>)
    ensures
        r is Some <==> (ct@.len() == 15744 && sk@.len() == 31296),
        r matches Some(s) ==> s@.len() == 24,
        r matches Some(s) ==> s@ == frodokem976aes_decapsulated(ct@, sk@),
{
    match (frodokem976aes::Ciphertext::from_bytes(ct), frodokem976aes::SecretKey::from_bytes(sk)) {
        (Ok(ct), Ok(sk)) => Some(frodokem976aes::decapsulate(&ct, &sk).as_bytes().to_vec()),
        _ => None,
    }
}

/// Relies on `pqcrypto::kem::frodokem976shake::keypair`: a fresh key pair, whose public and
/// secret keys are byte arrays of 15632 and 31296 bytes.
#[verifier::external_body]
#[inline(never)]
fn frodokem976shake_keypair() -> (r: (Vec<u8>, Vec<u8>))
    ensures
        r.0@.len() == 15632,
        r.1@.len() == 31296,
{
    let (pk, sk) = frodokem976shake::keypair();
    (pk.as_bytes().to_vec(), sk.as_bytes().to_vec())
}

/// Relies on `pqcrypto::kem::frodokem976shake::encapsulate`, after `PublicKey::from_bytes`, which
/// refuses every length but 15632: a ciphertext of 15744 bytes and a shared secret of 24.
#[verifier::external_body]
#[inline(never)]
fn frodokem976shake_encapsulate(pk: &[u8]) -> (r: Option<(Vec<u8>, Vec<u8>)>)
    ensures
        r is Some <==> pk@.len() == 15632,
        r matches Some(p) ==> p.0@.len() == 15744 && p.1@.len() == 24,
{
    match frodokem976shake::PublicKey::from_bytes(pk) {
        Ok(pk) => {
            let (ss, ct) = frodokem976shake::encapsulate(&pk);
            Some((ct.as_bytes().to_vec(), ss.as_bytes().to_vec()))
        }
        Err(_) => None,
    }
}

/// Relies on `pqcrypto::kem::frodokem976shake::decapsulate`, after `from_bytes` on the ciphertext
/// (15744 bytes) and the secret key (31296 bytes), which refuses other lengths.
#[verifier::external_body]
#[inline(never)]
fn frodokem976shake_decapsulate(ct: &[u8], sk: &[u8]) -> (r: Option<Vec<u8>>)
    ensures
        r is Some <==> (ct@.len() == 15744 && sk@.len() == 31296),
        r matches Some(s) ==> s@.len() == 24,
        r matches Some(s) ==> s@ == frodokem976shake_decapsulated(ct@, sk@),
{
    match (frodokem976shake::Ciphertext::from_bytes(ct), frodokem976shake::SecretKey::from_bytes(sk)) {
        (Ok(ct), Ok(sk)) => Some(frodokem976shake::decapsulate(&ct, &sk).as_bytes().to_vec()),
        _ => None,
    }
}

/// Relies on `pqcrypto::kem::frodokem1344aes::keypair`: a fresh key pair, whose public and
/// secret keys are byte arrays of 21520 and 43088 bytes.
#[verifier::external_body]
#[inline(never)]
fn frodokem1344aes_keypair() -> (r: (Vec<u8>, Vec<u8>))
    ensures
        r.0@.len() == 21520,
        r.1@.len() == 43088,
{
    let (pk, sk) = frodokem1344aes::keypair();
    (pk.as_bytes().to_vec(), sk.as_bytes().to_vec())
}

/// Relies on `pqcrypto::kem::frodokem1344aes::encapsulate`, after `PublicKey::from_bytes`, which
/// refuses every length but 21520: a ciphertext of 21632 bytes and a shared secret of 32.
#[verifier::external_body]
#[inline(never)]
fn frodokem1344aes_encapsulate(pk: &[u8]) -> (r: Option<(Vec<u8>, Vec<u8>)>)
    ensures
        r is Some <==> pk@.len() == 21520,
        r matches Some(p) ==> p.0@.len() == 21632 && p.1@.len() == 32,
{
    match frodokem1344aes::PublicKey::from_bytes(pk) {
        Ok(pk) => {
            let (ss, ct) = frodokem1344aes::encapsulate(&pk);
            Some((ct.as_bytes().to_vec(), ss.as_bytes().to_vec()))
        }
        Err(_) => None,
    }
}

/// Relies on `pqcrypto::kem::frodokem1344aes::decapsulate`, after `from_bytes` on the ciphertext
/// (21632 bytes) and the secret key (43088 bytes), which refuses other lengths.
#[verifier::external_body]
#[inline(never)]
fn frodokem1344aes_decapsulate(ct: &[u8], sk: &[u8]) -> (r: Option<Vec<u8>>)
    ensures
        r is Some <==> (ct@.len() == 21632 && sk@.len() == 43088),
        r matches Some(s) ==> s@.len() == 32,
        r matches Some(s) ==> s@ == frodokem1344aes_decapsulated(ct@, sk@),
{
    match (frodokem1344aes::Ciphertext::from_bytes(ct), frodokem1344aes::SecretKey::from_bytes(sk)) {
        (Ok(ct), Ok(sk)) => Some(frodokem1344aes::decapsulate(&ct, &sk).as_bytes().to_vec()),
        _ => None,
    }
}

/// Relies on `pqcrypto::kem::frodokem1344shake::keypair`: a fresh key pair, whose public and
/// secret keys are byte arrays of 21520 and 43088 bytes.
#[verifier::external_body]
#[inline(never)]
fn frodokem1344shake_keypair() -> (r: (Vec<u8>, Vec<u8>))
    ensures
        r.0@.len() == 21520,
        r.1@.len() == 43088,
{
    let (pk, sk) = frodokem1344shake::keypair();
    (pk.as_bytes().to_vec(), sk.as_bytes().to_vec())
}

/// Relies on `pqcrypto::kem::frodokem1344shake::encapsulate`, after `PublicKey::from_bytes`, which
/// refuses every length but 21520: a ciphertext of 21632 bytes and a shared secret of 32.
#[verifier::external_body]
#[inline(never)]
fn frodokem1344shake_encapsulate(pk: &[u8]) -> (r: Option<(Vec<u8>, Vec<u8>)>)
    ensures
        r is Some <==> pk@.len() == 21520,
        r matches Some(p) ==> p.0@.len() == 21632 && p.1@.len() == 32,
{
    match frodokem1344shake::PublicKey::from_bytes(pk) {
        Ok(pk) => {
            let (ss, ct) = frodokem1344shake::encapsulate(&pk);
            Some((ct.as_bytes().to_vec(), ss.as_bytes().to_vec()))
        }
        Err(_) => None,
    }
}

/// Relies on `pqcrypto::kem::frodokem1344shake::decapsulate`, after `from_bytes` on the ciphertext
/// (21632 bytes) and the secret key (43088 bytes), which refuses other lengths.
#[verifier::external_body]
#[inline(never)]
fn frodokem1344shake_decapsulate(ct: &[u8], sk: &[u8]) -> (r: Option<Vec<u8>>)
    ensures
        r is Some <==> (ct@.len() == 21632 && sk@.len() == 43088),
        r matches Some(s) ==> s@.len() == 32,
        r matches Some(s) ==> s@ == frodokem1344shake_decapsulated(ct@, sk@),
{
    match (frodokem1344shake::Ciphertext::from_bytes(ct), frodokem1344shake::SecretKey::from_bytes(sk)) {
        (Ok(ct), Ok(sk)) => Some(frodokem1344shake::decapsulate(&ct, &sk).as_bytes().to_vec()),
        _ => None,
    }
}

/// Relies on `pqcrypto::kem::kyber512::keypair`: a fresh key pair, whose public and
/// secret keys are byte arrays of 800 and 1632 bytes.
#[verifier::external_body]
#[inline(never)]
fn kyber512_keypair() -> (r: (Vec<u8>, Vec<u8>))
    ensures
        r.0@.len() == 800,
        r.1@.len() == 1632,
{
    let (pk, sk) = kyber512::keypair();
    (pk.as_bytes().to_vec(), sk.as_bytes().to_vec())
}

/// Relies on `pqcrypto::kem::kyber512::encapsulate`, after `PublicKey::from_bytes`, which
/// refuses every length but 800: a ciphertext of 768 bytes and a shared secret of 32.
#[verifier::external_body]
#[inline(never)]
fn kyber512_encapsulate(pk: &[u8]) -> (r: Option<(Vec<u8>, Vec<u8>)>)
    ensures
        r is Some <==> pk@.len() == 800,
        r matches Some(p) ==> p.0@.len() == 768 && p.1@.len() == 32,
{
    match kyber512::PublicKey::from_bytes(pk) {
        Ok(pk) => {
            let (ss, ct) = kyber512::encapsulate(&pk);
            Some((ct.as_bytes().to_vec(), ss.as_bytes().to_vec()))
        }
        Err(_) => None,
    }
}

/// Relies on `pqcrypto::kem::kyber512::decapsulate`, after `from_bytes` on the ciphertext
/// (768 bytes) and the secret key (1632 bytes), which refuses other lengths.
#[verifier::external_body]
#[inline(never)]
fn kyber512_decapsulate(ct: &[u8], sk: &[u8]) -> (r: Option<Vec<u8>>)
    ensures
        r is Some <==> (ct@.len() == 768 && sk@.len() == 1632),
        r matches Some(s) ==> s@.len() == 32,
        r matches Some(s) ==> s@ == kyber512_decapsulated(ct@, sk@),
{
    match (kyber512::Ciphertext::from_bytes(ct), kyber512::SecretKey::from_bytes(sk)) {
        (Ok(ct), Ok(sk)) => Some(kyber512::decapsulate(&ct, &sk).as_bytes().to_vec()),
        _ => None,
    }
}

/// Relies on `pqcrypto::kem::kyber768::keypair`: a fresh key pair, whose public and
/// secret keys are byte arrays of 1184 and 2400 bytes.
#[verifier::external_body]
#[inline(never)]
fn kyber768_keypair() -> (r: (Vec<u8>, Vec<u8>))
    ensures
        r.0@.len() == 1184,
        r.1@.len() == 2400,
{
    let (pk, sk) = kyber768::keypair();
    (pk.as_bytes().to_vec(), sk.as_bytes().to_vec())
}

/// Relies on `pqcrypto::kem::kyber768::encapsulate`, after `PublicKey::from_bytes`, which
/// refuses every length but 1184: a ciphertext of 1088 bytes and a shared secret of 32.
#[verifier::external_body]
#[inline(never)]
fn kyber768_encapsulate(pk: &[u8]) -> (r: Option<(Vec<u8>, Vec<u8>)>)
    ensures
        r is Some <==> pk@.len() == 1184,
        r matches Some(p) ==> p.0@.len() == 1088 && p.1@.len() == 32,
{
    match kyber768::PublicKey::from_bytes(pk) {
        Ok(pk) => {
            let (ss, ct) = kyber768::encapsulate(&pk);
            Some((ct.as_bytes().to_vec(), ss.as_bytes().to_vec()))
        }
        Err(_) => None,
    }
}

/// Relies on `pqcrypto::kem::kyber768::decapsulate`, after `from_bytes` on the ciphertext
/// (1088 bytes) and the secret key (2400 bytes), which refuses other lengths.
#[verifier::external_body]
#[inline(never)]
fn kyber768_decapsulate(ct: &[u8], sk: &[u8]) -> (r: Option<Vec<u8>>)
    ensures
        r is Some <==> (ct@.len() == 1088 && sk@.len() == 2400),
        r matches Some(s) ==> s@.len() == 32,
        r matches Some(s) ==> s@ == kyber768_decapsulated(ct@, sk@),
{
    match (kyber768::Ciphertext::from_bytes(ct), kyber768::SecretKey::from_bytes(sk)) {
        (Ok(ct), Ok(sk)) => Some(kyber768::decapsulate(&ct, &sk).as_bytes().to_vec()),
        _ => None,
    }
}

/// Relies on `pqcrypto::kem::kyber1024::keypair`: a fresh key pair, whose public and
/// secret keys are byte arrays of 1568 and 3168 bytes.
#[verifier::external_body]
#[inline(never)]
fn kyber1024_keypair() -> (r: (Vec<u8>, Vec<u8>))
    ensures
        r.0@.len() == 1568,
        r.1@.len() == 3168,
{
    let (pk, sk) = kyber1024::keypair();
    (pk.as_bytes().to_vec(), sk.as_bytes().to_vec())
}

/// Relies on `pqcrypto::kem::kyber1024::encapsulate`, after `PublicKey::from_bytes`, which
/// refuses every length but 1568: a ciphertext of 1568 bytes and a shared secret of 32.
#[verifier::external_body]
#[inline(never)]
fn kyber1024_encapsulate(pk: &[u8]) -> (r: Option<(Vec<u8>, Vec<u8>)>)
    ensures
        r is Some <==> pk@.len() == 1568,
        r matches Some(p) ==> p.0@.len() == 1568 && p.1@.len() == 32,
{
    match kyber1024::PublicKey::from_bytes(pk) {
        Ok(pk) => {
            let (ss, ct) = kyber1024::encapsulate(&pk);
            Some((ct.as_bytes().to_vec(), ss.as_bytes().to_vec()))
        }
        Err(_) => None,
    }
}

/// Relies on `pqcrypto::kem::kyber1024::decapsulate`, after `from_bytes` on the ciphertext
/// (1568 bytes) and the secret key (3168 bytes), which refuses other lengths.
#[verifier::external_body]
#[inline(never)]
fn kyber1024_decapsulate(ct: &[u8], sk: &[u8]) -> (r: Option<Vec<u8>>)
    ensures
        r is Some <==> (ct@.len() == 1568 && sk@.len() == 3168),
        r matches Some(s) ==> s@.len() == 32,
        r matches Some(s) ==> s@ == kyber1024_decapsulated(ct@, sk@),
{
    match (kyber1024::Ciphertext::from_bytes(ct), kyber1024::SecretKey::from_bytes(sk)) {
        (Ok(ct), Ok(sk)) => Some(kyber1024::decapsulate(&ct, &sk).as_bytes().to_vec()),
        _ => None,
    }
}

/// Relies on `pqcrypto::kem::kyber51290s::keypair`: a fresh key pair, whose public and
/// secret keys are byte arrays of 800 and 1632 bytes.
#[verifier::external_body]
#[inline(never)]
fn kyber51290s_keypair() -> (r: (Vec<u8>, Vec<u8>))
    ensures
        r.0@.len() == 800,
        r.1@.len() == 1632,
{
    let (pk, sk) = kyber51290s::keypair();
    (pk.as_bytes().to_vec(), sk.as_bytes().to_vec())
}

/// Relies on `pqcrypto::kem::kyber51290s::encapsulate`, after `PublicKey::from_bytes`, which
/// refuses every length but 800: a ciphertext of 768 bytes and a shared secret of 32.
#[verifier::external_body]
#[inline(never)]
fn kyber51290s_encapsulate(pk: &[u8]) -> (r: Option<(Vec<u8>, Vec<u8>)>)
    ensures
        r is Some <==> pk@.len() == 800,
        r matches Some(p) ==> p.0@.len() == 768 && p.1@.len() == 32,
{
    match kyber51290s::PublicKey::from_bytes(pk) {
        Ok(pk) => {
            let (ss, ct) = kyber51290s::encapsulate(&pk);
            Some((ct.as_bytes().to_vec(), ss.as_bytes().to_vec()))
        }
        Err(_) => None,
    }
}

/// Relies on `pqcrypto::kem::kyber51290s::decapsulate`, after `from_bytes` on the ciphertext
/// (768 bytes) and the secret key (1632 bytes), which refuses other lengths.
#[verifier::external_body]
#[inline(never)]
fn kyber51290s_decapsulate(ct: &[u8], sk: &[u8]) -> (r: Option<Vec<u8>>)
    ensures
        r is Some <==> (ct@.len() == 768 && sk@.len() == 1632),
        r matches Some(s) ==> s@.len() == 32,
        r matches Some(s) ==> s@ == kyber51290s_decapsulated(ct@, sk@),
{
    match (kyber51290s::Ciphertext::from_bytes(ct), kyber51290s::SecretKey::from_bytes(sk)) {
        (Ok(ct), Ok(sk)) => Some(kyber51290s::decapsulate(&ct, &sk).as_bytes().to_vec()),
        _ => None,
    }
}

/// Relies on `pqcrypto::kem::kyber76890s::keypair`: a fresh key pair, whose public and
/// secret keys are byte arrays of 1184 and 2400 bytes.
#[verifier::external_body]
#[inline(never)]
fn kyber76890s_keypair() -> (r: (Vec<u8>, Vec<u8>))
    ensures
        r.0@.len() == 1184,
        r.1@.len() == 2400,
{
    let (pk, sk) = kyber76890s::keypair();
    (pk.as_bytes().to_vec(), sk.as_bytes().to_vec())
}

/// Relies on `pqcrypto::kem::kyber76890s::encapsulate`, after `PublicKey::from_bytes`, which
/// refuses every length but 1184: a ciphertext of 1088 bytes and a shared secret of 32.
#[verifier::external_body]
#[inline(never)]
fn kyber76890s_encapsulate(pk: &[u8]) -> (r: Option<(Vec<u8>, Vec<u8>)>)
    ensures
        r is Some <==> pk@.len() == 1184,
        r matches Some(p) ==> p.0@.len() == 1088 && p.1@.len() == 32,
{
    match kyber76890s::PublicKey::from_bytes(pk) {
        Ok(pk) => {
            let (ss, ct) = kyber76890s::encapsulate(&pk);
            Some((ct.as_bytes().to_vec(), ss.as_bytes().to_vec()))
        }
        Err(_) => None,
    }
}

/// Relies on `pqcrypto::kem::kyber76890s::decapsulate`, after `from_bytes` on the ciphertext
/// (1088 bytes) and the secret key (2400 bytes), which refuses other lengths.
#[verifier::external_body]
#[inline(never)]
fn kyber76890s_decapsulate(ct: &[u8], sk: &[u8]) -> (r: Option<Vec<u8>>)
    ensures
        r is Some <==> (ct@.len() == 1088 && sk@.len() == 2400),
        r matches Some(s) ==> s@.len() == 32,
        r matches Some(s) ==> s@ == kyber76890s_decapsulated(ct@, sk@),
{
    match (kyber76890s::Ciphertext::from_bytes(ct), kyber76890s::SecretKey::from_bytes(sk)) {
        (Ok(ct), Ok(sk)) => Some(kyber76890s::decapsulate(&ct, &sk).as_bytes().to_vec()),
        _ => None,
    }
}

/// Relies on `pqcrypto::kem::kyber102490s::keypair`: a fresh key pair, whose public and
/// secret keys are byte arrays of 1568 and 3168 bytes.
#[verifier::external_body]
#[inline(never)]
fn kyber102490s_keypair() -> (r: (Vec<u8>, Vec<u8>))
    ensures
        r.0@.len() == 1568,
        r.1@.len() == 3168,
{
    let (pk, sk) = kyber102490s::keypair();
    (pk.as_bytes().to_vec(), sk.as_bytes().to_vec())
}

/// Relies on `pqcrypto::kem::kyber102490s::encapsulate`, after `PublicKey::from_bytes`, which
/// refuses every length but 1568: a ciphertext of 1568 bytes and a shared secret of 32.
#[verifier::external_body]
#[inline(never)]
fn kyber102490s_encapsulate(pk: &[u8]) -> (r: Option<(Vec<u8>, Vec<u8>)>)
    ensures
        r is Some <==> pk@.len() == 1568,
        r matches Some(p) ==> p.0@.len() == 1568 && p.1@.len() == 32,
{
    match kyber102490s::PublicKey::from_bytes(pk) {
        Ok(pk) => {
            let (ss, ct) = kyber102490s::encapsulate(&pk);
            Some((ct.as_bytes().to_vec(), ss.as_bytes().to_vec()))
        }
        Err(_) => None,
    }
}

/// Relies on `pqcrypto::kem::kyber102490s::decapsulate`, after `from_bytes` on the ciphertext
/// (1568 bytes) and the secret key (3168 bytes), which refuses other lengths.
#[verifier::external_body]
#[inline(never)]
fn kyber102490s_decapsulate(ct: &[u8], sk: &[u8]) -> (r: Option<Vec<u8>>)
    ensures
        r is Some <==> (ct@.len() == 1568 && sk@.len() == 3168),
        r matches Some(s) ==> s@.len() == 32,
        r matches Some(s) ==> s@ == kyber102490s_decapsulated(ct@, sk@),
{
    match (kyber102490s::Ciphertext::from_bytes(ct), kyber102490s::SecretKey::from_bytes(sk)) {
        (Ok(ct), Ok(sk)) => Some(kyber102490s::decapsulate(&ct, &sk).as_bytes().to_vec()),
        _ => None,
    }
}

/// Relies on `pqcrypto::kem::lightsaber::keypair`: a fresh key pair, whose public and
/// secret keys are byte arrays of 672 and 1568 bytes.
#[verifier::external_body]
#[inline(never)]
fn lightsaber_keypair() -> (r: (Vec<u8>, Vec<u8>))
    ensures
        r.0@.len() == 672,
        r.1@.len() == 1568,
{
    let (pk, sk) = lightsaber::keypair();
    (pk.as_bytes().to_vec(), sk.as_bytes().to_vec())
}

/// Relies on `pqcrypto::kem::lightsaber::encapsulate`, after `PublicKey::from_bytes`, which
/// refuses every length but 672: a ciphertext of 736 bytes and a shared secret of 32.
#[verifier::external_body]
#[inline(never)]
fn lightsaber_encapsulate(pk: &[u8]) -> (r: Option<(Vec<u8>, Vec<u8>)>)
    ensures
        r is Some <==> pk@.len() == 672,
        r matches Some(p) ==> p.0@.len() == 736 && p.1@.len() == 32,
{
    match lightsaber::PublicKey::from_bytes(pk) {
        Ok(pk) => {
            let (ss, ct) = lightsaber::encapsulate(&pk);
            Some((ct.as_bytes().to_vec(), ss.as_bytes().to_vec()))
        }
        Err(_) => None,
    }
}

/// Relies on `pqcrypto::kem::lightsaber::decapsulate`, after `from_bytes` on the ciphertext
/// (736 bytes) and the secret key (1568 bytes), which refuses other lengths.
#[verifier::external_body]
#[inline(never)]
fn lightsaber_decapsulate(ct: &[u8], sk: &[u8]) -> (r: Option<Vec<u8>>)
    ensures
        r is Some <==> (ct@.len() == 736 && sk@.len() == 1568),
        r matches Some(s) ==> s@.len() == 32,
        r matches Some(s) ==> s@ == lightsaber_decapsulated(ct@, sk@),
{
    match (lightsaber::Ciphertext::from_bytes(ct), lightsaber::SecretKey::from_bytes(sk)) {
        (Ok(ct), Ok(sk)) => Some(lightsaber::decapsulate(&ct, &sk).as_bytes().to_vec()),
        _ => None,
    }
}

/// Relies on `pqcrypto::kem::mceliece348864::keypair`: a fresh key pair, whose public and
/// secret keys are byte arrays of 261120 and 6452 bytes.
#[verifier::external_body]
#[inline(never)]
fn mceliece348864_keypair() -> (r: (Vec<u8>, Vec<u8>))
    ensures
        r.0@.len() == 261120,
        r.1@.len() == 6452,
{
    let (pk, sk) = mceliece348864::keypair();
    (pk.as_bytes().to_vec(), sk.as_bytes().to_vec())
}

/// Relies on `pqcrypto::kem::mceliece348864::encapsulate`, after `PublicKey::from_bytes`, which
/// refuses every length but 261120: a ciphertext of 128 bytes and a shared secret of 32.
#[verifier::external_body]
#[inline(never)]
fn mceliece348864_encapsulate(pk: &[u8]) -> (r: Option<(Vec<u8>, Vec<u8>)>)
    ensures
        r is Some <==> pk@.len() == 261120,
        r matches Some(p) ==> p.0@.len() == 128 && p.1@.len() == 32,
{
    match mceliece348864::PublicKey::from_bytes(pk) {
        Ok(pk) => {
            let (ss, ct) = mceliece348864::encapsulate(&pk);
            Some((ct.as_bytes().to_vec(), ss.as_bytes().to_vec()))
        }
        Err(_) => None,
    }
}

/// Relies on `pqcrypto::kem::mceliece348864::decapsulate`, after `from_bytes` on the ciphertext
/// (128 bytes) and the secret key (6452 bytes), which refuses other lengths.
#[verifier::external_body]
#[inline(never)]
fn mceliece348864_decapsulate(ct: &[u8], sk: &[u8]) -> (r: Option<Vec<u8>>)
    ensures
        r is Some <==> (ct@.len() == 128 && sk@.len() == 6452),
        r matches Some(s) ==> s@.len() == 32,
        r matches Some(s) ==> s@ == mceliece348864_decapsulated(ct@, sk@),
{
    match (mceliece348864::Ciphertext::from_bytes(ct), mceliece348864::SecretKey::from_bytes(sk)) {
        (Ok(ct), Ok(sk)) => Some(mceliece348864::decapsulate(&ct, &sk).as_bytes().to_vec()),
        _ => None,
    }
}

/// Relies on `pqcrypto::kem::mceliece348864f::keypair`: a fresh key pair, whose public and
/// secret keys are byte arrays of 261120 and 6452 bytes.
#[verifier::external_body]
#[inline(never)]
fn mceliece348864f_keypair() -> (r: (Vec<u8>, Vec<u8>))
    ensures
        r.0@.len() == 261120,
        r.1@.len() == 6452,
{
    let (pk, sk) = mceliece348864f::keypair();
    (pk.as_bytes().to_vec(), sk.as_bytes().to_vec())
}

/// Relies on `pqcrypto::kem::mceliece348864f::encapsulate`, after `PublicKey::from_bytes`, which
/// refuses every length but 261120: a ciphertext of 128 bytes and a shared secret of 32.
#[verifier::external_body]
#[inline(never)]
fn mceliece348864f_encapsulate(pk: &[u8]) -> (r: Option<(Vec<u8>, Vec<u8>)>)
    ensures
        r is Some <==> pk@.len() == 261120,
        r matches Some(p) ==> p.0@.len() == 128 && p.1@.len() == 32,
{
    match mceliece348864f::PublicKey::from_bytes(pk) {
        Ok(pk) => {
            let (ss, ct) = mceliece348864f::encapsulate(&pk);
            Some((ct.as_bytes().to_vec(), ss.as_bytes().to_vec()))
        }
        Err(_) => None,
    }
}

/// Relies on `pqcrypto::kem::mceliece348864f::decapsulate`, after `from_bytes` on the ciphertext
/// (128 bytes) and the secret key (6452 bytes), which refuses other lengths.
#[verifier::external_body]
#[inline(never)]
fn mceliece348864f_decapsulate(ct: &[u8], sk: &[u8]) -> (r: Option<Vec<u8>>)
    ensures
        r is Some <==> (ct@.len() == 128 && sk@.len() == 6452),
        r matches Some(s) ==> s@.len() == 32,
        r matches Some(s) ==> s@ == mceliece348864f_decapsulated(ct@, sk@),
{
    match (mceliece348864f::Ciphertext::from_bytes(ct), mceliece348864f::SecretKey::from_bytes(sk)) {
        (Ok(ct), Ok(sk)) => Some(mceliece348864f::decapsulate(&ct, &sk).as_bytes().to_vec()),
        _ => None,
    }
}

/// Relies on `pqcrypto::kem::mceliece460896::keypair`: a fresh key pair, whose public and
/// secret keys are byte arrays of 524160 and 13568 bytes.
#[verifier::external_body]
#[inline(never)]
fn mceliece460896_keypair() -> (r: (Vec<u8>, Vec<u8>))
    ensures
        r.0@.len() == 524160,
        r.1@.len() == 13568,
{
    let (pk, sk) = mceliece460896::keypair();
    (pk.as_bytes().to_vec(), sk.as_bytes().to_vec())
}

/// Relies on `pqcrypto::kem::mceliece460896::encapsulate`, after `PublicKey::from_bytes`, which
/// refuses every length but 524160: a ciphertext of 188 bytes and a shared secret of 32.
#[verifier::external_body]
#[inline(never)]
fn mceliece460896_encapsulate(pk: &[u8]) -> (r: Option<(Vec<u8>, Vec<u8>)>)
    ensures
        r is Some <==> pk@.len() == 524160,
        r matches Some(p) ==> p.0@.len() == 188 && p.1@.len() == 32,
{
    match mceliece460896::PublicKey::from_bytes(pk) {
        Ok(pk) => {
            let (ss, ct) = mceliece460896::encapsulate(&pk);
            Some((ct.as_bytes().to_vec(), ss.as_bytes().to_vec()))
        }
        Err(_) => None,
    }
}

/// Relies on `pqcrypto::kem::mceliece460896::decapsulate`, after `from_bytes` on the ciphertext
/// (188 bytes) and the secret key (13568 bytes), which refuses other lengths.
#[verifier::external_body]
#[inline(never)]
fn mceliece460896_decapsulate(ct: &[u8], sk: &[u8]) -> (r: Option<Vec<u8>>)
    ensures
        r is Some <==> (ct@.len() == 188 && sk@.len() == 13568),
        r matches Some(s) ==> s@.len() == 32,
        r matches Some(s) ==> s@ == mceliece460896_decapsulated(ct@, sk@),
{
    match (mceliece460896::Ciphertext::from_bytes(ct), mceliece460896::SecretKey::from_bytes(sk)) {
        (Ok(ct), Ok(sk)) => Some(mceliece460896::decapsulate(&ct, &sk).as_bytes().to_vec()),
        _ => None,
    }
}

/// Relies on `pqcrypto::kem::mceliece460896f::keypair`: a fresh key pair, whose public and
/// secret keys are byte arrays of 524160 and 13568 bytes.
#[verifier::external_body]
#[inline(never)]
fn mceliece460896f_keypair() -> (r: (Vec<u8>, Vec<u8>))
    ensures
        r.0@.len() == 524160,
        r.1@.len() == 13568,
{
    let (pk, sk) = mceliece460896f::keypair();
    (pk.as_bytes().to_vec(), sk.as_bytes().to_vec())
}

/// Relies on `pqcrypto::kem::mceliece460896f::encapsulate`, after `PublicKey::from_bytes`, which
/// refuses every length but 524160: a ciphertext of 188 bytes and a shared secret of 32.
#[verifier::external_body]
#[inline(never)]
fn mceliece460896f_encapsulate(pk: &[u8]) -> (r: Option<(Vec<u8>, Vec<u8>)>)
    ensures
        r is Some <==> pk@.len() == 524160,
        r matches Some(p) ==> p.0@.len() == 188 && p.1@.len() == 32,
{
    match mceliece460896f::PublicKey::from_bytes(pk) {
        Ok(pk) => {
            let (ss, ct) = mceliece460896f::encapsulate(&pk);
            Some((ct.as_bytes().to_vec(), ss.as_bytes().to_vec()))
        }
        Err(_) => None,
    }
}

/// Relies on `pqcrypto::kem::mceliece460896f::decapsulate`, after `from_bytes` on the ciphertext
/// (188 bytes) and the secret key (13568 bytes), which refuses other lengths.
#[verifier::external_body]
#[inline(never)]
fn mceliece460896f_decapsulate(ct: &[u8], sk: &[u8]) -> (r: Option<Vec<u8>>)
    ensures
        r is Some <==> (ct@.len() == 188 && sk@.len() == 13568),
        r matches Some(s) ==> s@.len() == 32,
        r matches Some(s) ==> s@ == mceliece460896f_decapsulated(ct@, sk@),
{
    match (mceliece460896f::Ciphertext::from_bytes(ct), mceliece460896f::SecretKey::from_bytes(sk)) {
        (Ok(ct), Ok(sk)) => Some(mceliece460896f::decapsulate(&ct, &sk).as_bytes().to_vec()),
        _ => None,
    }
}

/// Relies on `pqcrypto::kem::mceliece6688128::keypair`: a fresh key pair, whose public and
/// secret keys are byte arrays of 1044992 and 13892 bytes.
#[verifier::external_body]
#[inline(never)]
fn mceliece6688128_keypair() -> (r: (Vec<u8>, Vec<u8>))
    ensures
        r.0@.len() == 1044992,
        r.1@.len() == 13892,
{
    let (pk, sk) = mceliece6688128::keypair();
    (pk.as_bytes().to_vec(), sk.as_bytes().to_vec())
}

/// Relies on `pqcrypto::kem::mceliece6688128::encapsulate`, after `PublicKey::from_bytes`, which
/// refuses every length but 1044992: a ciphertext of 240 bytes and a shared secret of 32.
#[verifier::external_body]
#[inline(never)]
fn mceliece6688128_encapsulate(pk: &[u8]) -> (r: Option<(Vec<u8>, Vec<u8>)>)
    ensures
        r is Some <==> pk@.len() == 1044992,
        r matches Some(p) ==> p.0@.len() == 240 && p.1@.len() == 32,
{
    match mceliece6688128::PublicKey::from_bytes(pk) {
        Ok(pk) => {
            let (ss, ct) = mceliece6688128::encapsulate(&pk);
            Some((ct.as_bytes().to_vec(), ss.as_bytes().to_vec()))
        }
        Err(_) => None,
    }
}

/// Relies on `pqcrypto::kem::mceliece6688128::decapsulate`, after `from_bytes` on the ciphertext
/// (240 bytes) and the secret key (13892 bytes), which refuses other lengths.
#[verifier::external_body]
#[inline(never)]
fn mceliece6688128_decapsulate(ct: &[u8], sk: &[u8]) -> (r: Option<Vec<u8>>)
    ensures
        r is Some <==> (ct@.len() == 240 && sk@.len() == 13892),
        r matches Some(s) ==> s@.len() == 32,
        r matches Some(s) ==> s@ == mceliece6688128_decapsulated(ct@, sk@),
{
    match (mceliece6688128::Ciphertext::from_bytes(ct), mceliece6688128::SecretKey::from_bytes(sk)) {
        (Ok(ct), Ok(sk)) => Some(mceliece6688128::decapsulate(&ct, &sk).as_bytes().to_vec()),
        _ => None,
    }
}

/// Relies on `pqcrypto::kem::mceliece6688128f::keypair`: a fresh key pair, whose public and
/// secret keys are byte arrays of 1044992 and 13892 bytes.
#[verifier::external_body]
#[inline(never)]
fn mceliece6688128f_keypair() -> (r: (Vec<u8>, Vec<u8>))
    ensures
        r.0@.len() == 1044992,
        r.1@.len() == 13892,
{
    let (pk, sk) = mceliece6688128f::keypair();
    (pk.as_bytes().to_vec(), sk.as_bytes().to_vec())
}

/// Relies on `pqcrypto::kem::mceliece6688128f::encapsulate`, after `PublicKey::from_bytes`, which
/// refuses every length but 1044992: a ciphertext of 240 bytes and a shared secret of 32.
#[verifier::external_body]
#[inline(never)]
fn mceliece6688128f_encapsulate(pk: &[u8]) -> (r: Option<(Vec<u8>, Vec<u8>)>)
    ensures
        r is Some <==> pk@.len() == 1044992,
        r matches Some(p) ==> p.0@.len() == 240 && p.1@.len() == 32,
{
    match mceliece6688128f::PublicKey::from_bytes(pk) {
        Ok(pk) => {
            let (ss, ct) = mceliece6688128f::encapsulate(&pk);
            Some((ct.as_bytes().to_vec(), ss.as_bytes().to_vec()))
        }
        Err(_) => None,
    }
}

/// Relies on `pqcrypto::kem::mceliece6688128f::decapsulate`, after `from_bytes` on the ciphertext
/// (240 bytes) and the secret key (13892 bytes), which refuses other lengths.
#[verifier::external_body]
#[inline(never)]
fn mceliece6688128f_decapsulate(ct: &[u8], sk: &[u8]) -> (r: Option<Vec<u8>>)
    ensures
        r is Some <==> (ct@.len() == 240 && sk@.len() == 13892),
        r matches Some(s) ==> s@.len() == 32,
        r matches Some(s) ==> s@ == mceliece6688128f_decapsulated(ct@, sk@),
{
    match (mceliece6688128f::Ciphertext::from_bytes(ct), mceliece6688128f::SecretKey::from_bytes(sk)) {
        (Ok(ct), Ok(sk)) => Some(mceliece6688128f::decapsulate(&ct, &sk).as_bytes().to_vec()),
        _ => None,
    }
}

/// Relies on `pqcrypto::kem::mceliece6960119::keypair`: a fresh key pair, whose public and
/// secret keys are byte arrays of 1047319 and 13908 bytes.
#[verifier::external_body]
#[inline(never)]
fn mceliece6960119_keypair() -> (r: (Vec<u8>, Vec<u8>))
    ensures
        r.0@.len() == 1047319,
        r.1@.len() == 13908,
{
    let (pk, sk) = mceliece6960119::keypair();
    (pk.as_bytes().to_vec(), sk.as_bytes().to_vec())
}

/// Relies on `pqcrypto::kem::mceliece6960119::encapsulate`, after `PublicKey::from_bytes`, which
/// refuses every length but 1047319: a ciphertext of 226 bytes and a shared secret of 32.
#[verifier::external_body]
#[inline(never)]
fn mceliece6960119_encapsulate(pk: &[u8]) -> (r: Option<(Vec<u8>, Vec<u8>)>)
    ensures
        r is Some <==> pk@.len() == 1047319,
        r matches Some(p) ==> p.0@.len() == 226 && p.1@.len() == 32,
{
    match mceliece6960119::PublicKey::from_bytes(pk) {
        Ok(pk) => {
            let (ss, ct) = mceliece6960119::encapsulate(&pk);
            Some((ct.as_bytes().to_vec(), ss.as_bytes().to_vec()))
        }
        Err(_) => None,
    }
}

/// Relies on `pqcrypto::kem::mceliece6960119::decapsulate`, after `from_bytes` on the ciphertext
/// (226 bytes) and the secret key (13908 bytes), which refuses other lengths.
#[verifier::external_body]
#[inline(never)]
fn mceliece6960119_decapsulate(ct: &[u8], sk: &[u8]) -> (r: Option<Vec<u8>>)
    ensures
        r is Some <==> (ct@.len() == 226 && sk@.len() == 13908),
        r matches Some(s) ==> s@.len() == 32,
        r matches Some(s) ==> s@ == mceliece6960119_decapsulated(ct@, sk@),
{
    match (mceliece6960119::Ciphertext::from_bytes(ct), mceliece6960119::SecretKey::from_bytes(sk)) {
        (Ok(ct), Ok(sk)) => Some(mceliece6960119::decapsulate(&ct, &sk).as_bytes().to_vec()),
        _ => None,
    }
}

/// Relies on `pqcrypto::kem::mceliece6960119f::keypair`: a fresh key pair, whose public and
/// secret keys are byte arrays of 1047319 and 13908 bytes.
#[verifier::external_body]
#[inline(never)]
fn mceliece6960119f_keypair() -> (r: (Vec<u8>, Vec<u8>))
    ensures
        r.0@.len() == 1047319,
        r.1@.len() == 13908,
{
    let (pk, sk) = mceliece6960119f::keypair();
    (pk.as_bytes().to_vec(), sk.as_bytes().to_vec())
}

/// Relies on `pqcrypto::kem::mceliece6960119f::encapsulate`, after `PublicKey::from_bytes`, which
/// refuses every length but 1047319: a ciphertext of 226 bytes and a shared secret of 32.
#[verifier::external_body]
#[inline(never)]
fn mceliece6960119f_encapsulate(pk: &[u8]) -> (r: Option<(Vec<u8>, Vec<u8>)>)
    ensures
        r is Some <==> pk@.len() == 1047319,
        r matches Some(p) ==> p.0@.len() == 226 && p.1@.len() == 32,
{
    match mceliece6960119f::PublicKey::from_bytes(pk) {
        Ok(pk) => {
            let (ss, ct) = mceliece6960119f::encapsulate(&pk);
            Some((ct.as_bytes().to_vec(), ss.as_bytes().to_vec()))
        }
        Err(_) => None,
    }
}

/// Relies on `pqcrypto::kem::mceliece6960119f::decapsulate`, after `from_bytes` on the ciphertext
/// (226 bytes) and the secret key (13908 bytes), which refuses other lengths.
#[verifier::external_body]
#[inline(never)]
fn mceliece6960119f_decapsulate(ct: &[u8], sk: &[u8]) -> (r: Option<Vec<u8>>)
    ensures
        r is Some <==> (ct@.len() == 226 && sk@.len() == 13908),
        r matches Some(s) ==> s@.len() == 32,
        r matches Some(s) ==> s@ == mceliece6960119f_decapsulated(ct@, sk@),
{
    match (mceliece6960119f::Ciphertext::from_bytes(ct), mceliece6960119f::SecretKey::from_bytes(sk)) {
        (Ok(ct), Ok(sk)) => Some(mceliece6960119f::decapsulate(&ct, &sk).as_bytes().to_vec()),
        _ => None,
    }
}

/// Relies on `pqcrypto::kem::mceliece8192128::keypair`: a fresh key pair, whose public and
/// secret keys are byte arrays of 1357824 and 14080 bytes.
#[verifier::external_body]
#[inline(never)]
fn mceliece8192128_keypair() -> (r: (Vec<u8>, Vec<u8>))
    ensures
        r.0@.len() == 1357824,
        r.1@.len() == 14080,
{
    let (pk, sk) = mceliece8192128::keypair();
    (pk.as_bytes().to_vec(), sk.as_bytes().to_vec())
}

/// Relies on `pqcrypto::kem::mceliece8192128::encapsulate`, after `PublicKey::from_bytes`, which
/// refuses every length but 1357824: a ciphertext of 240 bytes and a shared secret of 32.
#[verifier::external_body]
#[inline(never)]
fn mceliece8192128_encapsulate(pk: &[u8]) -> (r: Option<(Vec<u8>, Vec<u8>)>)
    ensures
        r is Some <==> pk@.len() == 1357824,
        r matches Some(p) ==> p.0@.len() == 240 && p.1@.len() == 32,
{
    match mceliece8192128::PublicKey::from_bytes(pk) {
        Ok(pk) => {
            let (ss, ct) = mceliece8192128::encapsulate(&pk);
            Some((ct.as_bytes().to_vec(), ss.as_bytes().to_vec()))
        }
        Err(_) => None,
    }
}

/// Relies on `pqcrypto::kem::mceliece8192128::decapsulate`, after `from_bytes` on the ciphertext
/// (240 bytes) and the secret key (14080 bytes), which refuses other lengths.
#[verifier::external_body]
#[inline(never)]
fn mceliece8192128_decapsulate(ct: &[u8], sk: &[u8]) -> (r: Option<Vec<u8>>)
    ensures
        r is Some <==> (ct@.len() == 240 && sk@.len() == 14080),
        r matches Some(s) ==> s@.len() == 32,
        r matches Some(s) ==> s@ == mceliece8192128_decapsulated(ct@, sk@),
{
    match (mceliece8192128::Ciphertext::from_bytes(ct), mceliece8192128::SecretKey::from_bytes(sk)) {
        (Ok(ct), Ok(sk)) => Some(mceliece8192128::decapsulate(&ct, &sk).as_bytes().to_vec()),
        _ => None,
    }
}

/// Relies on `pqcrypto::kem::mceliece8192128f::keypair`: a fresh key pair, whose public and
/// secret keys are byte arrays of 1357824 and 14080 bytes.
#[verifier::external_body]
#[inline(never)]
fn mceliece8192128f_keypair() -> (r: (Vec<u8>, Vec<u8>))
    ensures
        r.0@.len() == 1357824,
        r.1@.len() == 14080,
{
    let (pk, sk) = mceliece8192128f::keypair();
    (pk.as_bytes().to_vec(), sk.as_bytes().to_vec())
}

/// Relies on `pqcrypto::kem::mceliece8192128f::encapsulate`, after `PublicKey::from_bytes`, which
/// refuses every length but 1357824: a ciphertext of 240 bytes and a shared secret of 32.
#[verifier::external_body]
#[inline(never)]
fn mceliece8192128f_encapsulate(pk: &[u8]) -> (r: Option<(Vec<u8>, Vec<u8>)>)
    ensures
        r is Some <==> pk@.len() == 1357824,
        r matches Some(p) ==> p.0@.len() == 240 && p.1@.len() == 32,
{
    match mceliece8192128f::PublicKey::from_bytes(pk) {
        Ok(pk) => {
            let (ss, ct) = mceliece8192128f::encapsulate(&pk);
            Some((ct.as_bytes().to_vec(), ss.as_bytes().to_vec()))
        }
        Err(_) => None,
    }
}

/// Relies on `pqcrypto::kem::mceliece8192128f::decapsulate`, after `from_bytes` on the ciphertext
/// (240 bytes) and the secret key (14080 bytes), which refuses other lengths.
#[verifier::external_body]
#[inline(never)]
fn mceliece8192128f_decapsulate(ct: &[u8], sk: &[u8]) -> (r: Option<Vec<u8>>)
    ensures
        r is Some <==> (ct@.len() == 240 && sk@.len() == 14080),
        r matches Some(s) ==> s@.len() == 32,
        r matches Some(s) ==> s@ == mceliece8192128f_decapsulated(ct@, sk@),
{
    match (mceliece8192128f::Ciphertext::from_bytes(ct), mceliece8192128f::SecretKey::from_bytes(sk)) {
        (Ok(ct), Ok(sk)) => Some(mceliece8192128f::decapsulate(&ct, &sk).as_bytes().to_vec()),
        _ => None,
    }
}

/// Relies on `pqcrypto::kem::ntruhps2048509::keypair`: a fresh key pair, whose public and
/// secret keys are byte arrays of 699 and 935 bytes.
#[verifier::external_body]
#[inline(never)]
fn ntruhps2048509_keypair() -> (r: (Vec<u8>, Vec<u8>))
    ensures
        r.0@.len() == 699,
        r.1@.len() == 935,
{
    let (pk, sk) = ntruhps2048509::keypair();
    (pk.as_bytes().to_vec(), sk.as_bytes().to_vec())
}

/// Relies on `pqcrypto::kem::ntruhps2048509::encapsulate`, after `PublicKey::from_bytes`, which
/// refuses every length but 699: a ciphertext of 699 bytes and a shared secret of 32.
#[verifier::external_body]
#[inline(never)]
fn ntruhps2048509_encapsulate(pk: &[u8]) -> (r: Option<(Vec<u8>, Vec<u8>)>)
    ensures
        r is Some <==> pk@.len() == 699,
        r matches Some(p) ==> p.0@.len() == 699 && p.1@.len() == 32,
{
    match ntruhps2048509::PublicKey::from_bytes(pk) {
        Ok(pk) => {
            let (ss, ct) = ntruhps2048509::encapsulate(&pk);
            Some((ct.as_bytes().to_vec(), ss.as_bytes().to_vec()))
        }
        Err(_) => None,
    }
}

/// Relies on `pqcrypto::kem::ntruhps2048509::decapsulate`, after `from_bytes` on the ciphertext
/// (699 bytes) and the secret key (935 bytes), which refuses other lengths.
#[verifier::external_body]
#[inline(never)]
fn ntruhps2048509_decapsulate(ct: &[u8], sk: &[u8]) -> (r: Option<Vec<u8>>)
    ensures
        r is Some <==> (ct@.len() == 699 && sk@.len() == 935),
        r matches Some(s) ==> s@.len() == 32,
        r matches Some(s) ==> s@ == ntruhps2048509_decapsulated(ct@, sk@),
{
    match (ntruhps2048509::Ciphertext::from_bytes(ct), ntruhps2048509::SecretKey::from_bytes(sk)) {
        (Ok(ct), Ok(sk)) => Some(ntruhps2048509::decapsulate(&ct, &sk).as_bytes().to_vec()),
        _ => None,
    }
}

/// Relies on `pqcrypto::kem::ntruhps2048677::keypair`: a fresh key pair, whose public and
/// secret keys are byte arrays of 930 and 1234 bytes.
#[verifier::external_body]
#[inline(never)]
fn ntruhps2048677_keypair() -> (r: (Vec<u8>, Vec<u8>))
    ensures
        r.0@.len() == 930,
        r.1@.len() == 1234,
{
    let (pk, sk) = ntruhps2048677::keypair();
    (pk.as_bytes().to_vec(), sk.as_bytes().to_vec())
}

/// Relies on `pqcrypto::kem::ntruhps2048677::encapsulate`, after `PublicKey::from_bytes`, which
/// refuses every length but 930: a ciphertext of 930 bytes and a shared secret of 32.
#[verifier::external_body]
#[inline(never)]
fn ntruhps2048677_encapsulate(pk: &[u8]) -> (r: Option<(Vec<u8>, Vec<u8>)>)
    ensures
        r is Some <==> pk@.len() == 930,
        r matches Some(p) ==> p.0@.len() == 930 && p.1@.len() == 32,
{
    match ntruhps2048677::PublicKey::from_bytes(pk) {
        Ok(pk) => {
            let (ss, ct) = ntruhps2048677::encapsulate(&pk);
            Some((ct.as_bytes().to_vec(), ss.as_bytes().to_vec()))
        }
        Err(_) => None,
    }
}

/// Relies on `pqcrypto::kem::ntruhps2048677::decapsulate`, after `from_bytes` on the ciphertext
/// (930 bytes) and the secret key (1234 bytes), which refuses other lengths.
#[verifier::external_body]
#[inline(never)]
fn ntruhps2048677_decapsulate(ct: &[u8], sk: &[u8]) -> (r: Option<Vec<u8>>)
    ensures
        r is Some <==> (ct@.len() == 930 && sk@.len() == 1234),
        r matches Some(s) ==> s@.len() == 32,
        r matches Some(s) ==> s@ == ntruhps2048677_decapsulated(ct@, sk@),
{
    match (ntruhps2048677::Ciphertext::from_bytes(ct), ntruhps2048677::SecretKey::from_bytes(sk)) {
        (Ok(ct), Ok(sk)) => Some(ntruhps2048677::decapsulate(&ct, &sk).as_bytes().to_vec()),
        _ => None,
    }
}

/// Relies on `pqcrypto::kem::ntruhps4096821::keypair`: a fresh key pair, whose public and
/// secret keys are byte arrays of 1230 and 1590 bytes.
#[verifier::external_body]
#[inline(never)]
fn ntruhps4096821_keypair() -> (r: (Vec<u8>, Vec<u8>))
    ensures
        r.0@.len() == 1230,
        r.1@.len() == 1590,
{
    let (pk, sk) = ntruhps4096821::keypair();
    (pk.as_bytes().to_vec(), sk.as_bytes().to_vec())
}

/// Relies on `pqcrypto::kem::ntruhps4096821::encapsulate`, after `PublicKey::from_bytes`, which
/// refuses every length but 1230: a ciphertext of 1230 bytes and a shared secret of 32.
#[verifier::external_body]
#[inline(never)]
fn ntruhps4096821_encapsulate(pk: &[u8]) -> (r: Option<(Vec<u8>, Vec<u8>)>)
    ensures
        r is Some <==> pk@.len() == 1230,
        r matches Some(p) ==> p.0@.len() == 1230 && p.1@.len() == 32,
{
    match ntruhps4096821::PublicKey::from_bytes(pk) {
        Ok(pk) => {
            let (ss, ct) = ntruhps4096821::encapsulate(&pk);
            Some((ct.as_bytes().to_vec(), ss.as_bytes().to_vec()))
        }
        Err(_) => None,
    }
}

/// Relies on `pqcrypto::kem::ntruhps4096821::decapsulate`, after `from_bytes` on the ciphertext
/// (1230 bytes) and the secret key (1590 bytes), which refuses other lengths.
#[verifier::external_body]
#[inline(never)]
fn ntruhps4096821_decapsulate(ct: &[u8], sk: &[u8]) -> (r: Option<Vec<u8>>)
    ensures
        r is Some <==> (ct@.len() == 1230 && sk@.len() == 1590),
        r matches Some(s) ==> s@.len() == 32,
        r matches Some(s) ==> s@ == ntruhps4096821_decapsulated(ct@, sk@),
{
    match (ntruhps4096821::Ciphertext::from_bytes(ct), ntruhps4096821::SecretKey::from_bytes(sk)) {
        (Ok(ct), Ok(sk)) => Some(ntruhps4096821::decapsulate(&ct, &sk).as_bytes().to_vec()),
        _ => None,
    }
}

/// Relies on `pqcrypto::kem::ntruhrss701::keypair`: a fresh key pair, whose public and
/// secret keys are byte arrays of 1138 and 1450 bytes.
#[verifier::external_body]
#[inline(never)]
fn ntruhrss701_keypair() -> (r: (Vec<u8>, Vec<u8>))
    ensures
        r.0@.len() == 1138,
        r.1@.len() == 1450,
{
    let (pk, sk) = ntruhrss701::keypair();
    (pk.as_bytes().to_vec(), sk.as_bytes().to_vec())
}

/// Relies on `pqcrypto::kem::ntruhrss701::encapsulate`, after `PublicKey::from_bytes`, which
/// refuses every length but 1138: a ciphertext of 1138 bytes and a shared secret of 32.
#[verifier::external_body]
#[inline(never)]
fn ntruhrss701_encapsulate(pk: &[u8]) -> (r: Option<(Vec<u8>, Vec<u8>)>)
    ensures
        r is Some <==> pk@.len() == 1138,
        r matches Some(p) ==> p.0@.len() == 1138 && p.1@.len() == 32,
{
    match ntruhrss701::PublicKey::from_bytes(pk) {
        Ok(pk) => {
            let (ss, ct) = ntruhrss701::encapsulate(&pk);
            Some((ct.as_bytes().to_vec(), ss.as_bytes().to_vec()))
        }
        Err(_) => None,
    }
}

/// Relies on `pqcrypto::kem::ntruhrss701::decapsulate`, after `from_bytes` on the ciphertext
/// (1138 bytes) and the secret key (1450 bytes), which refuses other lengths.
#[verifier::external_body]
#[inline(never)]
fn ntruhrss701_decapsulate(ct: &[u8], sk: &[u8]) -> (r: Option<Vec<u8>>)
    ensures
        r is Some <==> (ct@.len() == 1138 && sk@.len() == 1450),
        r matches Some(s) ==> s@.len() == 32,
        r matches Some(s) ==> s@ == ntruhrss701_decapsulated(ct@, sk@),
{
    match (ntruhrss701::Ciphertext::from_bytes(ct), ntruhrss701::SecretKey::from_bytes(sk)) {
        (Ok(ct), Ok(sk)) => Some(ntruhrss701::decapsulate(&ct, &sk).as_bytes().to_vec()),
        _ => None,
    }
}

/// Relies on `pqcrypto::kem::saber::keypair`: a fresh key pair, whose public and
/// secret keys are byte arrays of 992 and 2304 bytes.
#[verifier::external_body]
#[inline(never)]
fn saber_keypair() -> (r: (Vec<u8>, Vec<u8>))
    ensures
        r.0@.len() == 992,
        r.1@.len() == 2304,
{
    let (pk, sk) = saber::keypair();
    (pk.as_bytes().to_vec(), sk.as_bytes().to_vec())
}

/// Relies on `pqcrypto::kem::saber::encapsulate`, after `PublicKey::from_bytes`, which
/// refuses every length but 992: a ciphertext of 1088 bytes and a shared secret of 32.
#[verifier::external_body]
#[inline(never)]
fn saber_encapsulate(pk: &[u8]) -> (r: Option<(Vec<u8>, Vec<u8>)>)
    ensures
        r is Some <==> pk@.len() == 992,
        r matches Some(p) ==> p.0@.len() == 1088 && p.1@.len() == 32,
{
    match saber::PublicKey::from_bytes(pk) {
        Ok(pk) => {
            let (ss, ct) = saber::encapsulate(&pk);
            Some((ct.as_bytes().to_vec(), ss.as_bytes().to_vec()))
        }
        Err(_) => None,
    }
}

/// Relies on `pqcrypto::kem::saber::decapsulate`, after `from_bytes` on the ciphertext
/// (1088 bytes) and the secret key (2304 bytes), which refuses other lengths.
#[verifier::external_body]
#[inline(never)]
fn saber_decapsulate(ct: &[u8], sk: &[u8]) -> (r: Option<Vec<u8>>)
    ensures
        r is Some <==> (ct@.len() == 1088 && sk@.len() == 2304),
        r matches Some(s) ==> s@.len() == 32,
        r matches Some(s) ==> s@ == saber_decapsulated(ct@, sk@),
{
    match (saber::Ciphertext::from_bytes(ct), saber::SecretKey::from_bytes(sk)) {
        (Ok(ct), Ok(sk)) => Some(saber::decapsulate(&ct, &sk).as_bytes().to_vec()),
        _ => None,
    }
}

/// Runs key generation of `algorithm`: a public key and a secret key of the
/// algorithm's lengths.
pub(crate) fn keypair_for(algorithm: u8) -> (r: (Vec<u8>, Vec<u8>))
    requires
        is_supported(algorithm),
    ensures
        r.0@.len() == public_key_len(algorithm),
        r.1@.len() == secret_key_len(algorithm),
{
    match algorithm {
        ids::FIRESABER => firesaber_keypair(),
        ids::FRODOKEM640AES => frodokem640aes_keypair(),
        ids::FRODOKEM640SHAKE => frodokem640shake_keypair(),
        ids::FRODOKEM976AES => frodokem976aes_keypair(),
        ids::FRODOKEM976SHAKE => frodokem976shake_keypair(),
        ids::FRODOKEM1344AES => frodokem1344aes_keypair(),
        ids::FRODOKEM1344SHAKE => frodokem1344shake_keypair(),
        ids::KYBER512 => kyber512_keypair(),
        ids::KYBER768 => kyber768_keypair(),
        ids::KYBER1024 => kyber1024_keypair(),
        ids::KYBER51290S => kyber51290s_keypair(),
        ids::KYBER76890S => kyber76890s_keypair(),
        ids::KYBER102490S => kyber102490s_keypair(),
        ids::LIGHTSABER => lightsaber_keypair(),
        ids::MCELIECE348864 => mceliece348864_keypair(),
        ids::MCELIECE348864F => mceliece348864f_keypair(),
        ids::MCELIECE460896 => mceliece460896_keypair(),
        ids::MCELIECE460896F => mceliece460896f_keypair(),
        ids::MCELIECE6688128 => mceliece6688128_keypair(),
        ids::MCELIECE6688128F => mceliece6688128f_keypair(),
        ids::MCELIECE6960119 => mceliece6960119_keypair(),
        ids::MCELIECE6960119F => mceliece6960119f_keypair(),
        ids::MCELIECE8192128 => mceliece8192128_keypair(),
        ids::MCELIECE8192128F => mceliece8192128f_keypair(),
        ids::NTRUHPS2048509 => ntruhps2048509_keypair(),
        ids::NTRUHPS2048677 => ntruhps2048677_keypair(),
        ids::NTRUHPS4096821 => ntruhps4096821_keypair(),
        ids::NTRUHRSS701 => ntruhrss701_keypair(),
        ids::SABER => saber_keypair(),
        _ => {
            proof {
                assert(false);
            }
            (Vec::new(), Vec::new())
        }
    }
}

/// Encapsulates against `pk` under `algorithm`: `None` exactly when `pk` does not
/// have the algorithm's public-key length, else a ciphertext and a shared secret.
pub(crate) fn encapsulate_for(algorithm: u8, pk: &[u8]) -> (r: Option<(Vec<u8>, Vec<u8>)>)
    requires
        is_supported(algorithm),
    ensures
        r is Some <==> pk@.len() == public_key_len(algorithm),
        r matches Some(p) ==> p.0@.len() == ciphertext_len(algorithm) && p.1@.len()
            == shared_secret_len(algorithm),
{
    match algorithm {
        ids::FIRESABER => firesaber_encapsulate(pk),
        ids::FRODOKEM640AES => frodokem640aes_encapsulate(pk),
        ids::FRODOKEM640SHAKE => frodokem640shake_encapsulate(pk),
        ids::FRODOKEM976AES => frodokem976aes_encapsulate(pk),
        ids::FRODOKEM976SHAKE => frodokem976shake_encapsulate(pk),
        ids::FRODOKEM1344AES => frodokem1344aes_encapsulate(pk),
        ids::FRODOKEM1344SHAKE => frodokem1344shake_encapsulate(pk),
        ids::KYBER512 => kyber512_encapsulate(pk),
        ids::KYBER768 => kyber768_encapsulate(pk),
        ids::KYBER1024 => kyber1024_encapsulate(pk),
        ids::KYBER51290S => kyber51290s_encapsulate(pk),
        ids::KYBER76890S => kyber76890s_encapsulate(pk),
        ids::KYBER102490S => kyber102490s_encapsulate(pk),
        ids::LIGHTSABER => lightsaber_encapsulate(pk),
        ids::MCELIECE348864 => mceliece348864_encapsulate(pk),
        ids::MCELIECE348864F => mceliece348864f_encapsulate(pk),
        ids::MCELIECE460896 => mceliece460896_encapsulate(pk),
        ids::MCELIECE460896F => mceliece460896f_encapsulate(pk),
        ids::MCELIECE6688128 => mceliece6688128_encapsulate(pk),
        ids::MCELIECE6688128F => mceliece6688128f_encapsulate(pk),
        ids::MCELIECE6960119 => mceliece6960119_encapsulate(pk),
        ids::MCELIECE6960119F => mceliece6960119f_encapsulate(pk),
        ids::MCELIECE8192128 => mceliece8192128_encapsulate(pk),
        ids::MCELIECE8192128F => mceliece8192128f_encapsulate(pk),
        ids::NTRUHPS2048509 => ntruhps2048509_encapsulate(pk),
        ids::NTRUHPS2048677 => ntruhps2048677_encapsulate(pk),
        ids::NTRUHPS4096821 => ntruhps4096821_encapsulate(pk),
        ids::NTRUHRSS701 => ntruhrss701_encapsulate(pk),
        ids::SABER => saber_encapsulate(pk),
        _ => {
            proof {
                assert(false);
            }
            None
        }
    }
}

/// Decapsulates `ct` with `sk` under `algorithm`: `None` exactly when either has
/// the wrong length, else the shared secret.
pub(crate) fn decapsulate_for(algorithm: u8, ct: &[u8], sk: &[u8]) -> (r: Option<Vec<u8>>)
    requires
        is_supported(algorithm),
    ensures
        r is Some <==> ct@.len() == ciphertext_len(algorithm) && sk@.len() == secret_key_len(
            algorithm,
        ),
        r matches Some(s) ==> s@ == decapsulated(algorithm, ct@, sk@) && s@.len()
            == shared_secret_len(algorithm),
{
    match algorithm {
        ids::FIRESABER => firesaber_decapsulate(ct, sk),
        ids::FRODOKEM640AES => frodokem640aes_decapsulate(ct, sk),
        ids::FRODOKEM640SHAKE => frodokem640shake_decapsulate(ct, sk),
        ids::FRODOKEM976AES => frodokem976aes_decapsulate(ct, sk),
        ids::FRODOKEM976SHAKE => frodokem976shake_decapsulate(ct, sk),
        ids::FRODOKEM1344AES => frodokem1344aes_decapsulate(ct, sk),
        ids::FRODOKEM1344SHAKE => frodokem1344shake_decapsulate(ct, sk),
        ids::KYBER512 => kyber512_decapsulate(ct, sk),
        ids::KYBER768 => kyber768_decapsulate(ct, sk),
        ids::KYBER1024 => kyber1024_decapsulate(ct, sk),
        ids::KYBER51290S => kyber51290s_decapsulate(ct, sk),
        ids::KYBER76890S => kyber76890s_decapsulate(ct, sk),
        ids::KYBER102490S => kyber102490s_decapsulate(ct, sk),
        ids::LIGHTSABER => lightsaber_decapsulate(ct, sk),
        ids::MCELIECE348864 => mceliece348864_decapsulate(ct, sk),
        ids::MCELIECE348864F => mceliece348864f_decapsulate(ct, sk),
        ids::MCELIECE460896 => mceliece460896_decapsulate(ct, sk),
        ids::MCELIECE460896F => mceliece460896f_decapsulate(ct, sk),
        ids::MCELIECE6688128 => mceliece6688128_decapsulate(ct, sk),
        ids::MCELIECE6688128F => mceliece6688128f_decapsulate(ct, sk),
        ids::MCELIECE6960119 => mceliece6960119_decapsulate(ct, sk),
        ids::MCELIECE6960119F => mceliece6960119f_decapsulate(ct, sk),
        ids::MCELIECE8192128 => mceliece8192128_decapsulate(ct, sk),
        ids::MCELIECE8192128F => mceliece8192128f_decapsulate(ct, sk),
        ids::NTRUHPS2048509 => ntruhps2048509_decapsulate(ct, sk),
        ids::NTRUHPS2048677 => ntruhps2048677_decapsulate(ct, sk),
        ids::NTRUHPS4096821 => ntruhps4096821_decapsulate(ct, sk),
        ids::NTRUHRSS701 => ntruhrss701_decapsulate(ct, sk),
        ids::SABER => saber_decapsulate(ct, sk),
        _ => {
            proof {
                assert(false);
            }
            None
        }
    }
}

} // verus!
