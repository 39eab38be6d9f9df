//! The role-aware key-exchange container: it owns the key material of one
//! handshake, for one algorithm, and drives it through the two-message exchange.

use crate::algorithm_dictionary::{
    ciphertext_len, is_supported, public_key_len, secret_key_len, shared_secret_len,
};
use crate::buffer::{buffer_bytes, xor_into, xor_with_key};
use crate::kem::{decapsulate_for, decapsulated, encapsulate_for, keypair_for};
use bytes::BytesMut;
use vstd::prelude::*;
use vstd::slice::slice_to_vec;

verus! {

/// The local node's part in the exchange.
#[derive(PartialEq, Eq, Structural, Copy, Clone, Debug)]
pub enum PQNode {
    /// The initiator: generates a key pair and sends the public key to Bob.
    Alice,
    /// The responder: encapsulates against Alice's public key and sends the
    /// ciphertext back.
    Bob,
}

/// Why an operation of the key exchange was refused.
#[derive(PartialEq, Eq, Structural, Copy, Clone, Debug)]
pub enum PqError {
    /// Bytes from the peer do not parse as a key or ciphertext of the algorithm.
    DecodeError,
    /// The operation does not fit the container's role or stage.
    ProtocolError,
    /// The requested field is not (or never will be) held by this container.
    StateError,
}

/// The key material of one handshake, as bytes.
pub struct KeyMaterial {
    pub(crate) public_key: Vec<u8>,
    pub(crate) secret_key: Option<Vec<u8>>,
    pub(crate) ciphertext: Option<Vec<u8>>,
    pub(crate) shared_secret: Option<Vec<u8>>,
}

/// Holds the key material of one handshake, tagged with its algorithm and role.
pub struct PostQuantumContainer {
    pub(crate) algorithm: u8,
    pub(crate) data: KeyMaterial,
    pub(crate) node: PQNode,
}

/// The abstract state of a container.
pub ghost struct ContainerView {
    pub algorithm: u8,
    pub node: PQNode,
    pub public_key: Seq<u8>,
    pub secret_key: Option<Seq<u8>>,
    pub ciphertext: Option<Seq<u8>>,
    pub shared_secret: Option<Seq<u8>>,
}

pub open spec fn bytes_opt(o: Option<Vec<u8>>) -> Option<Seq<u8>> {
    match o {
        Some(v) => Some(v@),
        None => None,
    }
}

pub open spec fn has_len(o: Option<Seq<u8>>, n: nat) -> bool {
    o matches Some(s) ==> s.len() == n
}

impl ContainerView {
    /// The states that a container can be in: Alice holds her key pair and,
    /// once completed, the ciphertext and shared secret; Bob holds everything but
    /// a secret key from the start. Every field has its algorithm's length.
    pub open spec fn well_formed(self) -> bool {
        &&& is_supported(self.algorithm)
        &&& self.public_key.len() == public_key_len(self.algorithm)
        &&& has_len(self.secret_key, secret_key_len(self.algorithm))
        &&& has_len(self.ciphertext, ciphertext_len(self.algorithm))
        &&& has_len(self.shared_secret, shared_secret_len(self.algorithm))
        &&& (self.ciphertext is Some <==> self.shared_secret is Some)
        &&& match self.node {
            PQNode::Alice => self.secret_key is Some,
            PQNode::Bob => self.secret_key is None && self.ciphertext is Some,
        }
    }

    /// Whether the shared secret is known.
    pub open spec fn is_complete(self) -> bool {
        self.shared_secret is Some
    }
}

impl View for PostQuantumContainer {
    type V = ContainerView;

    closed spec fn view(&self) -> ContainerView {
        ContainerView {
            algorithm: self.algorithm,
            node: self.node,
            public_key: self.data.public_key@,
            secret_key: bytes_opt(self.data.secret_key),
            ciphertext: bytes_opt(self.data.ciphertext),
            shared_secret: bytes_opt(self.data.shared_secret),
        }
    }
}

fn option_slice(o: &Option<Vec<u8>>) -> (r: Result<&[u8], PqError>)
    ensures
        o is Some <==> r is Ok,
        r matches Ok(s) ==> bytes_opt(*o) == Some(s@),
        r matches Err(e) ==> e == PqError::StateError,
{
    match o {
        Some(v) => Ok(v.as_slice()),
        None => Err(PqError::StateError),
    }
}

impl PostQuantumContainer {
    /// Creates the container of the initiating node; runs key generation.
    /// Classic McEliece keys are up to 1.3 MB and its key generation works on
    /// the stack: call it for those algorithms from a thread with a large stack.
    pub fn new_alice(algorithm: u8) -> (r: Self)
        requires
            is_supported(algorithm),
        ensures
            r@.well_formed(),
            r@.algorithm == algorithm,
            r@.node == PQNode::Alice,
            !r@.is_complete(),
            r@.ciphertext is None,
    {
        Self { algorithm, data: Self::get_new_alice(algorithm), node: PQNode::Alice }
    }

    /// Creates the container of the responding node from the peer's public key;
    /// fails with `DecodeError` exactly when the key has not the algorithm's
    /// public-key length.
    pub fn new_bob(algorithm: u8, public_key: &[u8]) -> (r: Result<Self, PqError>)
        requires
            is_supported(algorithm),
        ensures
            r is Ok <==> public_key@.len() == public_key_len(algorithm),
            r matches Err(e) ==> e == PqError::DecodeError,
            r matches Ok(c) ==> {
                &&& c@.well_formed()
                &&& c@.algorithm == algorithm
                &&& c@.node == PQNode::Bob
                &&& c@.public_key == public_key@
                &&& c@.is_complete()
            },
    {
        match Self::get_new_bob(algorithm, public_key) {
            Ok(data) => Ok(Self { algorithm, data, node: PQNode::Bob }),
            Err(e) => Err(e),
        }
    }

    /// Alice's step on Bob's reply: decapsulates `ciphertext` with her secret key
    /// and keeps ciphertext and shared secret. Refused, with the container left as
    /// it was, on Bob's container or a completed one (`ProtocolError`), and on a
    /// ciphertext of the wrong length (`DecodeError`).
    pub fn alice_on_receive_ciphertext(&mut self, ciphertext: &[u8]) -> (r: Result<(), PqError>)
        requires
            old(self)@.well_formed(),
        ensures
            final(self)@.well_formed(),
            old(self)@.node == PQNode::Bob ==> r == Err::<(), PqError>(PqError::ProtocolError),
            old(self)@.node == PQNode::Alice && old(self)@.is_complete() ==> r == Err::<(), PqError>(
                PqError::ProtocolError,
            ),
            old(self)@.node == PQNode::Alice && !old(self)@.is_complete() && ciphertext@.len()
                != ciphertext_len(old(self)@.algorithm) ==> r == Err::<(), PqError>(
                PqError::DecodeError,
            ),
            old(self)@.node == PQNode::Alice && !old(self)@.is_complete() && ciphertext@.len()
                == ciphertext_len(old(self)@.algorithm) ==> r is Ok,
            r is Err ==> final(self)@ == old(self)@,
            r is Ok ==> {
                &&& old(self)@.node == PQNode::Alice
                &&& !old(self)@.is_complete()
                &&& ciphertext@.len() == ciphertext_len(old(self)@.algorithm)
                &&& final(self)@ == ContainerView {
                    ciphertext: Some(ciphertext@),
                    shared_secret: Some(
                        decapsulated(
                            old(self)@.algorithm,
                            ciphertext@,
                            old(self)@.secret_key->Some_0,
                        ),
                    ),
                    ..old(self)@
                }
            },
    {
        if self.node != PQNode::Alice {
            return Err(PqError::ProtocolError);
        }
        if self.data.shared_secret.is_some() || self.data.ciphertext.is_some() {
            return Err(PqError::ProtocolError);
        }
        let shared = match &self.data.secret_key {
            Some(sk) => decapsulate_for(self.algorithm, ciphertext, sk.as_slice()),
            None => {
                return Err(PqError::ProtocolError);
            },
        };
        match shared {
            Some(ss) => {
                self.data.ciphertext = Some(slice_to_vec(ciphertext));
                self.data.shared_secret = Some(ss);
                Ok(())
            },
            None => Err(PqError::DecodeError),
        }
    }

    /// The public key; every container holds one.
    pub fn get_public_key(&self) -> (r: &[u8])
        ensures
            r@ == self@.public_key,
    {
        self.data.public_key.as_slice()
    }

    /// The secret key: only Alice's container holds one.
    pub fn get_secret_key(&self) -> (r: Result<&[u8], PqError>)
        ensures
            r is Ok <==> self@.secret_key is Some,
            r matches Ok(s) ==> self@.secret_key == Some(s@),
            r matches Err(e) ==> e == PqError::StateError,
    {
        option_slice(&self.data.secret_key)
    }

    /// The ciphertext: Bob's from the start, Alice's once completed.
    pub fn get_ciphertext(&self) -> (r: Result<&[u8], PqError>)
        ensures
            r is Ok <==> self@.ciphertext is Some,
            r matches Ok(s) ==> self@.ciphertext == Some(s@),
            r matches Err(e) ==> e == PqError::StateError,
    {
        option_slice(&self.data.ciphertext)
    }

    /// The shared secret: Bob's from the start, Alice's once completed.
    pub fn get_shared_secret(&self) -> (r: Result<&[u8], PqError>)
        ensures
            r is Ok <==> self@.shared_secret is Some,
            r matches Ok(s) ==> self@.shared_secret == Some(s@),
            r matches Err(e) ==> e == PqError::StateError,
    {
        option_slice(&self.data.shared_secret)
    }

    /// Alice or Bob.
    pub fn get_node_type(&self) -> (r: PQNode)
        ensures
            r == self@.node,
    {
        self.node
    }

    /// The identifier of the algorithm in use.
    pub fn get_algorithm_idx(&self) -> (r: u8)
        ensures
            r == self@.algorithm,
    {
        self.algorithm
    }

    /// Appends `input` XORed with the shared secret, repeated, to `output`. A toy
    /// cipher for small data, not a security primitive. `StateError`, with
    /// `output` untouched, while the shared secret is not known.
    pub fn encrypt_data(&self, input: &[u8], output: &mut BytesMut) -> (r: Result<(), PqError>)
        requires
            self@.well_formed(),
        ensures
            r is Ok <==> self@.is_complete(),
            r matches Err(e) ==> e == PqError::StateError && *final(output) == *old(output),
            r is Ok ==> buffer_bytes(*final(output)) == buffer_bytes(*old(output)) + xor_with_key(
                input@,
                self@.shared_secret->Some_0,
            ),
    {
        match &self.data.shared_secret {
            Some(ss) => {
                xor_into(input, ss.as_slice(), output);
                Ok(())
            },
            None => Err(PqError::StateError),
        }
    }

    /// Undoes `encrypt_data`: appends `input` XORed with the shared secret,
    /// repeated, to `output`; `StateError` while the shared secret is not known.
    pub fn decrypt_data(&self, input: &[u8], output: &mut BytesMut) -> (r: Result<(), PqError>)
        requires
            self@.well_formed(),
        ensures
            r is Ok <==> self@.is_complete(),
            r matches Err(e) ==> e == PqError::StateError && *final(output) == *old(output),
            r is Ok ==> buffer_bytes(*final(output)) == buffer_bytes(*old(output)) + xor_with_key(
                input@,
                self@.shared_secret->Some_0,
            ),
    {
        self.encrypt_data(input, output)
    }

    pub(crate) fn from_parts(algorithm: u8, node: PQNode, data: KeyMaterial) -> (r: Self)
        ensures
            r@ == (ContainerView {
                algorithm,
                node,
                public_key: data.public_key@,
                secret_key: bytes_opt(data.secret_key),
                ciphertext: bytes_opt(data.ciphertext),
                shared_secret: bytes_opt(data.shared_secret),
            }),
    {
        Self { algorithm, data, node }
    }

    fn get_new_alice(algorithm: u8) -> (r: KeyMaterial)
        requires
            is_supported(algorithm),
        ensures
            r.public_key@.len() == public_key_len(algorithm),
            r.secret_key matches Some(sk) && sk@.len() == secret_key_len(algorithm),
            r.ciphertext is None,
            r.shared_secret is None,
    {
        let (public_key, secret_key) = keypair_for(algorithm);
        KeyMaterial { public_key, secret_key: Some(secret_key), ciphertext: None, shared_secret: None }
    }

    fn get_new_bob(algorithm: u8, public_key: &[u8]) -> (r: Result<KeyMaterial, PqError>)
        requires
            is_supported(algorithm),
        ensures
            r is Ok <==> public_key@.len() == public_key_len(algorithm),
            r matches Err(e) ==> e == PqError::DecodeError,
            r matches Ok(m) ==> {
                &&& m.public_key@ == public_key@
                &&& m.secret_key is None
                &&& m.ciphertext matches Some(ct) && ct@.len() == ciphertext_len(algorithm)
                &&& m.shared_secret matches Some(ss) && ss@.len() == shared_secret_len(algorithm)
            },
    {
        match encapsulate_for(algorithm, public_key) {
            Some((ciphertext, shared_secret)) => Ok(
                KeyMaterial {
                    public_key: slice_to_vec(public_key),
                    secret_key: None,
                    ciphertext: Some(ciphertext),
                    shared_secret: Some(shared_secret),
                },
            ),
            None => Err(PqError::DecodeError),
        }
    }
}

} // verus!
