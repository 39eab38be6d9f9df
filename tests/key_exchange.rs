use bytes::BytesMut;
use ez_pqcrypto::algorithm_dictionary;
use ez_pqcrypto::algorithm_dictionary::{
    algorithm_is_supported, ciphertext_length, public_key_length, secret_key_length,
    shared_secret_length,
};
use ez_pqcrypto::{PQNode, PostQuantumContainer, PostQuantumExport, PqError};

fn handshake(algorithm: u8) -> (PostQuantumContainer, PostQuantumContainer) {
    let mut alice = PostQuantumContainer::new_alice(algorithm);
    let bob = PostQuantumContainer::new_bob(alice.get_algorithm_idx(), alice.get_public_key())
        .unwrap();
    let ct = bob.get_ciphertext().unwrap().to_vec();
    alice.alice_on_receive_ciphertext(&ct).unwrap();
    (alice, bob)
}

fn run(algorithm: u8) {
    let (alice, bob) = handshake(algorithm);
    assert_eq!(alice.get_shared_secret().unwrap(), bob.get_shared_secret().unwrap());
    assert_eq!(alice.get_ciphertext().unwrap(), bob.get_ciphertext().unwrap());
    assert_eq!(alice.get_public_key(), bob.get_public_key());
    assert_eq!(alice.get_public_key().len(), public_key_length(algorithm));
    assert_eq!(alice.get_secret_key().unwrap().len(), secret_key_length(algorithm));
    assert_eq!(alice.get_ciphertext().unwrap().len(), ciphertext_length(algorithm));
    assert_eq!(alice.get_shared_secret().unwrap().len(), shared_secret_length(algorithm));
}

#[test]
fn handshake_kyber_family() {
    for algorithm in algorithm_dictionary::KYBER512..=algorithm_dictionary::KYBER102490S {
        run(algorithm);
    }
}

#[test]
fn handshake_saber_family() {
    run(algorithm_dictionary::FIRESABER);
    run(algorithm_dictionary::LIGHTSABER);
    run(algorithm_dictionary::SABER);
}

#[test]
fn handshake_frodo_family() {
    for algorithm in algorithm_dictionary::FRODOKEM640AES..=algorithm_dictionary::FRODOKEM1344SHAKE {
        run(algorithm);
    }
}

#[test]
fn handshake_ntru_family() {
    for algorithm in algorithm_dictionary::NTRUHPS2048509..=algorithm_dictionary::NTRUHRSS701 {
        run(algorithm);
    }
}

#[test]
fn mceliece_responder_rejects_short_key() {
    let bytes = vec![1u8; 1000];
    assert_eq!(
        PostQuantumContainer::new_bob(algorithm_dictionary::MCELIECE348864, &bytes).err(),
        Some(PqError::DecodeError)
    );
}

#[test]
fn supported_algorithms() {
    let supported: Vec<u8> =
        (0..algorithm_dictionary::ALGORITHM_COUNT).filter(|a| algorithm_is_supported(*a)).collect();
    assert_eq!(supported.len(), 29);
    assert!(!algorithm_is_supported(algorithm_dictionary::BABYBEAR));
    assert!(!algorithm_is_supported(algorithm_dictionary::NEWHOPE512CCA));
    assert!(!algorithm_is_supported(algorithm_dictionary::LEDAKEMLT12));
    assert!(!algorithm_is_supported(algorithm_dictionary::ALGORITHM_COUNT));
    assert!(algorithm_is_supported(algorithm_dictionary::KYBER768));
    assert!(algorithm_is_supported(algorithm_dictionary::MCELIECE8192128F));
}

#[test]
fn key_lengths() {
    assert_eq!(public_key_length(algorithm_dictionary::KYBER512), 800);
    assert_eq!(secret_key_length(algorithm_dictionary::KYBER512), 1632);
    assert_eq!(ciphertext_length(algorithm_dictionary::KYBER512), 768);
    assert_eq!(shared_secret_length(algorithm_dictionary::KYBER512), 32);
    assert_eq!(public_key_length(algorithm_dictionary::FRODOKEM640AES), 9616);
    assert_eq!(shared_secret_length(algorithm_dictionary::FRODOKEM640SHAKE), 16);
    assert_eq!(public_key_length(algorithm_dictionary::MCELIECE8192128), 1357824);
    assert_eq!(ciphertext_length(algorithm_dictionary::NTRUHRSS701), 1138);
}

#[test]
fn responder_rejects_malformed_public_key() {
    for algorithm in [
        algorithm_dictionary::KYBER512,
        algorithm_dictionary::SABER,
        algorithm_dictionary::NTRUHPS2048509,
    ] {
        let expected = public_key_length(algorithm);
        for len in [0, 1, expected - 1, expected + 1] {
            let bytes = vec![7u8; len];
            assert_eq!(PostQuantumContainer::new_bob(algorithm, &bytes).err(), Some(PqError::DecodeError));
        }
        let bytes = vec![7u8; expected];
        assert!(PostQuantumContainer::new_bob(algorithm, &bytes).is_ok());
    }
}

#[test]
fn second_completion_is_refused() {
    let (mut alice, bob) = handshake(algorithm_dictionary::KYBER768);
    let first = alice.get_shared_secret().unwrap().to_vec();
    let ct = bob.get_ciphertext().unwrap().to_vec();
    assert_eq!(alice.alice_on_receive_ciphertext(&ct), Err(PqError::ProtocolError));
    assert_eq!(alice.get_shared_secret().unwrap(), &first[..]);
}

#[test]
fn completion_on_responder_is_refused() {
    let (_, mut bob) = handshake(algorithm_dictionary::KYBER512);
    let ct = bob.get_ciphertext().unwrap().to_vec();
    assert_eq!(bob.alice_on_receive_ciphertext(&ct), Err(PqError::ProtocolError));
}

#[test]
fn completion_with_malformed_ciphertext() {
    let mut alice = PostQuantumContainer::new_alice(algorithm_dictionary::KYBER512);
    assert_eq!(alice.alice_on_receive_ciphertext(&[1, 2, 3]), Err(PqError::DecodeError));
    assert_eq!(alice.get_ciphertext().err(), Some(PqError::StateError));
    assert_eq!(alice.get_shared_secret().err(), Some(PqError::StateError));
    let ct = vec![0u8; 768];
    assert_eq!(alice.alice_on_receive_ciphertext(&ct), Ok(()));
    assert_eq!(alice.get_ciphertext().unwrap(), &ct[..]);
}

#[test]
fn fields_by_role() {
    let alice = PostQuantumContainer::new_alice(algorithm_dictionary::LIGHTSABER);
    assert!(alice.get_node_type() == PQNode::Alice);
    assert_eq!(alice.get_algorithm_idx(), algorithm_dictionary::LIGHTSABER);
    assert!(alice.get_secret_key().is_ok());
    assert_eq!(alice.get_ciphertext().err(), Some(PqError::StateError));
    let bob =
        PostQuantumContainer::new_bob(algorithm_dictionary::LIGHTSABER, alice.get_public_key())
            .unwrap();
    assert!(bob.get_node_type() == PQNode::Bob);
    assert_eq!(bob.get_secret_key().err(), Some(PqError::StateError));
    assert!(bob.get_shared_secret().is_ok());
}

#[test]
fn export_round_trip() {
    let (alice, bob) = handshake(algorithm_dictionary::KYBER1024);
    for original in [&alice, &bob] {
        let export = PostQuantumExport::from_container(original);
        assert_eq!(export.algorithm, algorithm_dictionary::KYBER1024);
        let rebuilt = PostQuantumContainer::from_export(export).unwrap();
        assert!(rebuilt.get_node_type() == original.get_node_type());
        assert_eq!(rebuilt.get_algorithm_idx(), original.get_algorithm_idx());
        assert_eq!(rebuilt.get_public_key(), original.get_public_key());
        assert_eq!(rebuilt.get_secret_key(), original.get_secret_key());
        assert_eq!(rebuilt.get_ciphertext(), original.get_ciphertext());
        assert_eq!(rebuilt.get_shared_secret(), original.get_shared_secret());
    }
    let fresh = PostQuantumContainer::new_alice(algorithm_dictionary::KYBER512);
    let export = PostQuantumExport::from_container(&fresh);
    assert!(export.ciphertext.is_none() && export.shared_secret.is_none());
    let rebuilt = PostQuantumContainer::from_export(export).unwrap();
    assert_eq!(rebuilt.get_secret_key(), fresh.get_secret_key());
}

#[test]
fn export_with_invalid_fields_is_refused() {
    let alice = PostQuantumContainer::new_alice(algorithm_dictionary::KYBER512);
    let good = PostQuantumExport::from_container(&alice);

    let mut bad = good.clone();
    bad.algorithm = algorithm_dictionary::BABYBEAR;
    assert_eq!(PostQuantumContainer::from_export(bad).err(), Some(PqError::DecodeError));

    let mut bad = good.clone();
    bad.public_key.pop();
    assert_eq!(PostQuantumContainer::from_export(bad).err(), Some(PqError::DecodeError));

    let mut bad = good.clone();
    bad.ciphertext = Some(vec![0u8; 768]);
    assert_eq!(PostQuantumContainer::from_export(bad).err(), Some(PqError::DecodeError));

    let mut bad = good.clone();
    bad.secret_key = None;
    assert_eq!(PostQuantumContainer::from_export(bad).err(), Some(PqError::DecodeError));

    assert!(PostQuantumContainer::from_export(good).is_ok());
}

#[test]
fn xor_helper() {
    let (alice, bob) = handshake(algorithm_dictionary::KYBER512);
    let ss = alice.get_shared_secret().unwrap().to_vec();
    let input: Vec<u8> = (0..70u8).collect();
    let mut sealed = BytesMut::new();
    alice.encrypt_data(&input, &mut sealed).unwrap();
    assert_eq!(sealed.len(), 70);
    assert_eq!(sealed[0], ss[0]);
    assert_eq!(sealed[33], 33 ^ ss[1]);
    assert_eq!(sealed[69], 69 ^ ss[5]);
    let mut opened = BytesMut::new();
    bob.decrypt_data(&sealed, &mut opened).unwrap();
    assert_eq!(&opened[..], &input[..]);

    let fresh = PostQuantumContainer::new_alice(algorithm_dictionary::KYBER512);
    let mut out = BytesMut::new();
    assert_eq!(fresh.encrypt_data(&input, &mut out), Err(PqError::StateError));
    assert!(out.is_empty());
}

#[test]
fn default() {
    // BABYBEAR has no primitive in the linked pqcrypto; the first supported id stands in.
    run(algorithm_dictionary::FIRESABER)
}

#[test]
fn test_10() {
    for algorithm in 2..10u8 {
        println!("About to test {}", algorithm);
        run(algorithm)
    }
}

#[test]
fn test_serialize_deserialize() {
    for algorithm in 2..10u8 {
        println!("Test algorithm {}", algorithm);
        let (alice, _) = handshake(algorithm);
        let export = PostQuantumExport::from_container(&alice);
        let rebuilt = PostQuantumContainer::from_export(export).unwrap();
        assert_eq!(rebuilt.get_shared_secret(), alice.get_shared_secret());
        assert_eq!(rebuilt.get_secret_key(), alice.get_secret_key());
    }
}
