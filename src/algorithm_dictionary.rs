//! Numeric identifiers of the key-encapsulation algorithms, as they travel on the
//! wire, and the fixed sizes of each supported algorithm's keys, ciphertext and
//! shared secret.

use vstd::prelude::*;

verus! {

/// Number of identifiers in the registry; every identifier is below it.
pub const ALGORITHM_COUNT: u8 = 42;

pub const BABYBEAR: u8 = 0;
pub const BABYBEAREPHEM: u8 = 1;
pub const FIRESABER: u8 = 2;
pub const FRODOKEM640AES: u8 = 3;
pub const FRODOKEM640SHAKE: u8 = 4;
pub const FRODOKEM976AES: u8 = 5;
pub const FRODOKEM976SHAKE: u8 = 6;
pub const FRODOKEM1344AES: u8 = 7;
pub const FRODOKEM1344SHAKE: u8 = 8;
pub const KYBER512: u8 = 9;
pub const KYBER768: u8 = 10;
pub const KYBER1024: u8 = 11;
pub const KYBER51290S: u8 = 12;
pub const KYBER76890S: u8 = 13;
pub const KYBER102490S: u8 = 14;
pub const LEDAKEMLT12: u8 = 15;
pub const LEDAKEMLT32: u8 = 16;
pub const LEDAKEMLT52: u8 = 17;
pub const LIGHTSABER: u8 = 18;
pub const MAMABEAR: u8 = 19;
pub const MAMABEAREPHEM: u8 = 20;
pub const MCELIECE348864: u8 = 21;
pub const MCELIECE348864F: u8 = 22;
pub const MCELIECE460896: u8 = 23;
pub const MCELIECE460896F: u8 = 24;
pub const MCELIECE6688128: u8 = 25;
pub const MCELIECE6688128F: u8 = 26;
pub const MCELIECE6960119: u8 = 27;
pub const MCELIECE6960119F: u8 = 28;
pub const MCELIECE8192128: u8 = 29;
pub const MCELIECE8192128F: u8 = 30;
pub const NEWHOPE512CCA: u8 = 31;
pub const NEWHOPE512CPA: u8 = 32;
pub const NEWHOPE1024CCA: u8 = 33;
pub const NEWHOPE1024CPA: u8 = 34;
pub const NTRUHPS2048509: u8 = 35;
pub const NTRUHPS2048677: u8 = 36;
pub const NTRUHPS4096821: u8 = 37;
pub const NTRUHRSS701: u8 = 38;
pub const PAPABEAR: u8 = 39;
pub const PAPABEAREPHEM: u8 = 40;
pub const SABER: u8 = 41;

/// An identifier whose primitive this build links (a "supported" algorithm).
/// The other identifiers of the registry name algorithms that no linked
/// primitive implements; using them is a caller error.
pub open spec fn is_supported(algorithm: u8) -> bool {
    ||| algorithm == FIRESABER
    ||| algorithm == FRODOKEM640AES
    ||| algorithm == FRODOKEM640SHAKE
    ||| algorithm == FRODOKEM976AES
    ||| algorithm == FRODOKEM976SHAKE
    ||| algorithm == FRODOKEM1344AES
    ||| algorithm == FRODOKEM1344SHAKE
    ||| algorithm == KYBER512
    ||| algorithm == KYBER768
    ||| algorithm == KYBER1024
    ||| algorithm == KYBER51290S
    ||| algorithm == KYBER76890S
    ||| algorithm == KYBER102490S
    ||| algorithm == LIGHTSABER
    ||| algorithm == MCELIECE348864
    ||| algorithm == MCELIECE348864F
    ||| algorithm == MCELIECE460896
    ||| algorithm == MCELIECE460896F
    ||| algorithm == MCELIECE6688128
    ||| algorithm == MCELIECE6688128F
    ||| algorithm == MCELIECE6960119
    ||| algorithm == MCELIECE6960119F
    ||| algorithm == MCELIECE8192128
    ||| algorithm == MCELIECE8192128F
    ||| algorithm == NTRUHPS2048509
    ||| algorithm == NTRUHPS2048677
    ||| algorithm == NTRUHPS4096821
    ||| algorithm == NTRUHRSS701
    ||| algorithm == SABER
}

/// Length in bytes of a public key of a supported algorithm.
pub open spec fn public_key_len(algorithm: u8) -> nat {
    if algorithm == FIRESABER {
        1312
    } else if algorithm == FRODOKEM640AES {
        9616
    } else if algorithm == FRODOKEM640SHAKE {
        9616
    } else if algorithm == FRODOKEM976AES {
        15632
    } else if algorithm == FRODOKEM976SHAKE {
        15632
    } else if algorithm == FRODOKEM1344AES {
        21520
    } else if algorithm == FRODOKEM1344SHAKE {
        21520
    } else if algorithm == KYBER512 {
        800
    } else if algorithm == KYBER768 {
        1184
    } else if algorithm == KYBER1024 {
        1568
    } else if algorithm == KYBER51290S {
        800
    } else if algorithm == KYBER76890S {
        1184
    } else if algorithm == KYBER102490S {
        1568
    } else if algorithm == LIGHTSABER {
        672
    } else if algorithm == MCELIECE348864 {
        261120
    } else if algorithm == MCELIECE348864F {
        261120
    } else if algorithm == MCELIECE460896 {
        524160
    } else if algorithm == MCELIECE460896F {
        524160
    } else if algorithm == MCELIECE6688128 {
        1044992
    } else if algorithm == MCELIECE6688128F {
        1044992
    } else if algorithm == MCELIECE6960119 {
        1047319
    } else if algorithm == MCELIECE6960119F {
        1047319
    } else if algorithm == MCELIECE8192128 {
        1357824
    } else if algorithm == MCELIECE8192128F {
        1357824
    } else if algorithm == NTRUHPS2048509 {
        699
    } else if algorithm == NTRUHPS2048677 {
        930
    } else if algorithm == NTRUHPS4096821 {
        1230
    } else if algorithm == NTRUHRSS701 {
        1138
    } else if algorithm == SABER {
        992
    } else {
        0
    }
}

/// Length in bytes of a secret key of a supported algorithm.
pub open spec fn secret_key_len(algorithm: u8) -> nat {
    if algorithm == FIRESABER {
        3040
    } else if algorithm == FRODOKEM640AES {
        19888
    } else if algorithm == FRODOKEM640SHAKE {
        19888
    } else if algorithm == FRODOKEM976AES {
        31296
    } else if algorithm == FRODOKEM976SHAKE {
        31296
    } else if algorithm == FRODOKEM1344AES {
        43088
    } else if algorithm == FRODOKEM1344SHAKE {
        43088
    } else if algorithm == KYBER512 {
        1632
    } else if algorithm == KYBER768 {
        2400
    } else if algorithm == KYBER1024 {
        3168
    } else if algorithm == KYBER51290S {
        1632
    } else if algorithm == KYBER76890S {
        2400
    } else if algorithm == KYBER102490S {
        3168
    } else if algorithm == LIGHTSABER {
        1568
    } else if algorithm == MCELIECE348864 {
        6452
    } else if algorithm == MCELIECE348864F {
        6452
    } else if algorithm == MCELIECE460896 {
        13568
    } else if algorithm == MCELIECE460896F {
        13568
    } else if algorithm == MCELIECE6688128 {
        13892
    } else if algorithm == MCELIECE6688128F {
        13892
    } else if algorithm == MCELIECE6960119 {
        13908
    } else if algorithm == MCELIECE6960119F {
        13908
    } else if algorithm == MCELIECE8192128 {
        14080
    } else if algorithm == MCELIECE8192128F {
        14080
    } else if algorithm == NTRUHPS2048509 {
        935
    } else if algorithm == NTRUHPS2048677 {
        1234
    } else if algorithm == NTRUHPS4096821 {
        1590
    } else if algorithm == NTRUHRSS701 {
        1450
    } else if algorithm == SABER {
        2304
    } else {
        0
    }
}

/// Length in bytes of a ciphertext of a supported algorithm.
pub open spec fn ciphertext_len(algorithm: u8) -> nat {
    if algorithm == FIRESABER {
        1472
    } else if algorithm == FRODOKEM640AES {
        9720
    } else if algorithm == FRODOKEM640SHAKE {
        9720
    } else if algorithm == FRODOKEM976AES {
        15744
    } else if algorithm == FRODOKEM976SHAKE {
        15744
    } else if algorithm == FRODOKEM1344AES {
        21632
    } else if algorithm == FRODOKEM1344SHAKE {
        21632
    } else if algorithm == KYBER512 {
        768
    } else if algorithm == KYBER768 {
        1088
    } else if algorithm == KYBER1024 {
        1568
    } else if algorithm == KYBER51290S {
        768
    } else if algorithm == KYBER76890S {
        1088
    } else if algorithm == KYBER102490S {
        1568
    } else if algorithm == LIGHTSABER {
        736
    } else if algorithm == MCELIECE348864 {
        128
    } else if algorithm == MCELIECE348864F {
        128
    } else if algorithm == MCELIECE460896 {
        188
    } else if algorithm == MCELIECE460896F {
        188
    } else if algorithm == MCELIECE6688128 {
        240
    } else if algorithm == MCELIECE6688128F {
        240
    } else if algorithm == MCELIECE6960119 {
        226
    } else if algorithm == MCELIECE6960119F {
        226
    } else if algorithm == MCELIECE8192128 {
        240
    } else if algorithm == MCELIECE8192128F {
        240
    } else if algorithm == NTRUHPS2048509 {
        699
    } else if algorithm == NTRUHPS2048677 {
        930
    } else if algorithm == NTRUHPS4096821 {
        1230
    } else if algorithm == NTRUHRSS701 {
        1138
    } else if algorithm == SABER {
        1088
    } else {
        0
    }
}

/// Length in bytes of a shared secret of a supported algorithm.
pub open spec fn shared_secret_len(algorithm: u8) -> nat {
    if algorithm == FIRESABER {
        32
    } else if algorithm == FRODOKEM640AES {
        16
    } else if algorithm == FRODOKEM640SHAKE {
        16
    } else if algorithm == FRODOKEM976AES {
        24
    } else if algorithm == FRODOKEM976SHAKE {
        24
    } else if algorithm == FRODOKEM1344AES {
        32
    } else if algorithm == FRODOKEM1344SHAKE {
        32
    } else if algorithm == KYBER512 {
        32
    } else if algorithm == KYBER768 {
        32
    } else if algorithm == KYBER1024 {
        32
    } else if algorithm == KYBER51290S {
        32
    } else if algorithm == KYBER76890S {
        32
    } else if algorithm == KYBER102490S {
        32
    } else if algorithm == LIGHTSABER {
        32
    } else if algorithm == MCELIECE348864 {
        32
    } else if algorithm == MCELIECE348864F {
        32
    } else if algorithm == MCELIECE460896 {
        32
    } else if algorithm == MCELIECE460896F {
        32
    } else if algorithm == MCELIECE6688128 {
        32
    } else if algorithm == MCELIECE6688128F {
        32
    } else if algorithm == MCELIECE6960119 {
        32
    } else if algorithm == MCELIECE6960119F {
        32
    } else if algorithm == MCELIECE8192128 {
        32
    } else if algorithm == MCELIECE8192128F {
        32
    } else if algorithm == NTRUHPS2048509 {
        32
    } else if algorithm == NTRUHPS2048677 {
        32
    } else if algorithm == NTRUHPS4096821 {
        32
    } else if algorithm == NTRUHRSS701 {
        32
    } else if algorithm == SABER {
        32
    } else {
        0
    }
}

/// Tells whether `algorithm` is supported by this build.
pub fn algorithm_is_supported(algorithm: u8) -> (r: bool)
    ensures
        r == is_supported(algorithm),
{
    match algorithm {
        FIRESABER | FRODOKEM640AES | FRODOKEM640SHAKE | FRODOKEM976AES | FRODOKEM976SHAKE | FRODOKEM1344AES | FRODOKEM1344SHAKE | KYBER512 | KYBER768 | KYBER1024 | KYBER51290S | KYBER76890S | KYBER102490S | LIGHTSABER | MCELIECE348864 | MCELIECE348864F | MCELIECE460896 | MCELIECE460896F | MCELIECE6688128 | MCELIECE6688128F | MCELIECE6960119 | MCELIECE6960119F | MCELIECE8192128 | MCELIECE8192128F | NTRUHPS2048509 | NTRUHPS2048677 | NTRUHPS4096821 | NTRUHRSS701 | SABER => true,
        _ => false,
    }
}

/// Expected public-key length of `algorithm` in bytes.
pub fn public_key_length(algorithm: u8) -> (r: usize)
    requires
        is_supported(algorithm),
    ensures
        r == public_key_len(algorithm),
{
    match algorithm {
        FIRESABER => 1312,
        FRODOKEM640AES => 9616,
        FRODOKEM640SHAKE => 9616,
        FRODOKEM976AES => 15632,
        FRODOKEM976SHAKE => 15632,
        FRODOKEM1344AES => 21520,
        FRODOKEM1344SHAKE => 21520,
        KYBER512 => 800,
        KYBER768 => 1184,
        KYBER1024 => 1568,
        KYBER51290S => 800,
        KYBER76890S => 1184,
        KYBER102490S => 1568,
        LIGHTSABER => 672,
        MCELIECE348864 => 261120,
        MCELIECE348864F => 261120,
        MCELIECE460896 => 524160,
        MCELIECE460896F => 524160,
        MCELIECE6688128 => 1044992,
        MCELIECE6688128F => 1044992,
        MCELIECE6960119 => 1047319,
        MCELIECE6960119F => 1047319,
        MCELIECE8192128 => 1357824,
        MCELIECE8192128F => 1357824,
        NTRUHPS2048509 => 699,
        NTRUHPS2048677 => 930,
        NTRUHPS4096821 => 1230,
        NTRUHRSS701 => 1138,
        SABER => 992,
        _ => 0,
    }
}

/// Expected secret-key length of `algorithm` in bytes.
pub fn secret_key_length(algorithm: u8) -> (r: usize)
    requires
        is_supported(algorithm),
    ensures
        r == secret_key_len(algorithm),
{
    match algorithm {
        FIRESABER => 3040,
        FRODOKEM640AES => 19888,
        FRODOKEM640SHAKE => 19888,
        FRODOKEM976AES => 31296,
        FRODOKEM976SHAKE => 31296,
        FRODOKEM1344AES => 43088,
        FRODOKEM1344SHAKE => 43088,
        KYBER512 => 1632,
        KYBER768 => 2400,
        KYBER1024 => 3168,
        KYBER51290S => 1632,
        KYBER76890S => 2400,
        KYBER102490S => 3168,
        LIGHTSABER => 1568,
        MCELIECE348864 => 6452,
        MCELIECE348864F => 6452,
        MCELIECE460896 => 13568,
        MCELIECE460896F => 13568,
        MCELIECE6688128 => 13892,
        MCELIECE6688128F => 13892,
        MCELIECE6960119 => 13908,
        MCELIECE6960119F => 13908,
        MCELIECE8192128 => 14080,
        MCELIECE8192128F => 14080,
        NTRUHPS2048509 => 935,
        NTRUHPS2048677 => 1234,
        NTRUHPS4096821 => 1590,
        NTRUHRSS701 => 1450,
        SABER => 2304,
        _ => 0,
    }
}

/// Expected ciphertext length of `algorithm` in bytes.
pub fn ciphertext_length(algorithm: u8) -> (r: usize)
    requires
        is_supported(algorithm),
    ensures
        r == ciphertext_len(algorithm),
{
    match algorithm {
        FIRESABER => 1472,
        FRODOKEM640AES => 9720,
        FRODOKEM640SHAKE => 9720,
        FRODOKEM976AES => 15744,
        FRODOKEM976SHAKE => 15744,
        FRODOKEM1344AES => 21632,
        FRODOKEM1344SHAKE => 21632,
        KYBER512 => 768,
        KYBER768 => 1088,
        KYBER1024 => 1568,
        KYBER51290S => 768,
        KYBER76890S => 1088,
        KYBER102490S => 1568,
        LIGHTSABER => 736,
        MCELIECE348864 => 128,
        MCELIECE348864F => 128,
        MCELIECE460896 => 188,
        MCELIECE460896F => 188,
        MCELIECE6688128 => 240,
        MCELIECE6688128F => 240,
        MCELIECE6960119 => 226,
        MCELIECE6960119F => 226,
        MCELIECE8192128 => 240,
        MCELIECE8192128F => 240,
        NTRUHPS2048509 => 699,
        NTRUHPS2048677 => 930,
        NTRUHPS4096821 => 1230,
        NTRUHRSS701 => 1138,
        SABER => 1088,
        _ => 0,
    }
}

/// Expected shared-secret length of `algorithm` in bytes.
pub fn shared_secret_length(algorithm: u8) -> (r: usize)
    requires
        is_supported(algorithm),
    ensures
        r == shared_secret_len(algorithm),
{
    match algorithm {
        FIRESABER => 32,
        FRODOKEM640AES => 16,
        FRODOKEM640SHAKE => 16,
        FRODOKEM976AES => 24,
        FRODOKEM976SHAKE => 24,
        FRODOKEM1344AES => 32,
        FRODOKEM1344SHAKE => 32,
        KYBER512 => 32,
        KYBER768 => 32,
        KYBER1024 => 32,
        KYBER51290S => 32,
        KYBER76890S => 32,
        KYBER102490S => 32,
        LIGHTSABER => 32,
        MCELIECE348864 => 32,
        MCELIECE348864F => 32,
        MCELIECE460896 => 32,
        MCELIECE460896F => 32,
        MCELIECE6688128 => 32,
        MCELIECE6688128F => 32,
        MCELIECE6960119 => 32,
        MCELIECE6960119F => 32,
        MCELIECE8192128 => 32,
        MCELIECE8192128F => 32,
        NTRUHPS2048509 => 32,
        NTRUHPS2048677 => 32,
        NTRUHPS4096821 => 32,
        NTRUHRSS701 => 32,
        SABER => 32,
        _ => 0,
    }
}

} // verus!
