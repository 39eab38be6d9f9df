//! A flat snapshot of a container, for persistence or transmission, and the
//! checked way back from such a snapshot to a container.

use crate::algorithm_dictionary::{
    algorithm_is_supported, ciphertext_length, public_key_length, secret_key_length,
    shared_secret_length,
};
use crate::container::{
    bytes_opt, ContainerView, KeyMaterial, PQNode, PostQuantumContainer, PqError,
};
use vstd::prelude::*;
use vstd::slice::slice_to_vec;

verus! {

/// The state of a container as plain data: the algorithm and the four byte
/// fields, each optional one present exactly when the container held it.
#[derive(Clone)]
pub struct PostQuantumExport {
    pub algorithm: u8,
    pub public_key: Vec<u8>,
    pub secret_key: Option<Vec<u8>>,
    pub ciphertext: Option<Vec<u8>>,
    pub shared_secret: Option<Vec<u8>>,
}

/// The abstract content of an export.
pub ghost struct ExportView {
    pub algorithm: u8,
    pub public_key: Seq<u8>,
    pub secret_key: Option<Seq<u8>>,
    pub ciphertext: Option<Seq<u8>>,
    pub shared_secret: Option<Seq<u8>>,
}

impl View for PostQuantumExport {
    type V = ExportView;

    open spec fn view(&self) -> ExportView {
        ExportView {
            algorithm: self.algorithm,
            public_key: self.public_key@,
            secret_key: bytes_opt(self.secret_key),
            ciphertext: bytes_opt(self.ciphertext),
            shared_secret: bytes_opt(self.shared_secret),
        }
    }
}

/// The export of a container in state `c`.
pub open spec fn export_of(c: ContainerView) -> ExportView {
    ExportView {
        algorithm: c.algorithm,
        public_key: c.public_key,
        secret_key: c.secret_key,
        ciphertext: c.ciphertext,
        shared_secret: c.shared_secret,
    }
}

/// The role that an export's fields imply: only Alice holds a secret key.
pub open spec fn node_of(e: ExportView) -> PQNode {
    if e.secret_key is Some {
        PQNode::Alice
    } else {
        PQNode::Bob
    }
}

/// The container state that an export describes, if it describes a valid one.
pub open spec fn container_of(e: ExportView) -> Option<ContainerView> {
    let c = ContainerView {
        algorithm: e.algorithm,
        node: node_of(e),
        public_key: e.public_key,
        secret_key: e.secret_key,
        ciphertext: e.ciphertext,
        shared_secret: e.shared_secret,
    };
    if c.well_formed() {
        Some(c)
    } else {
        None
    }
}

/// Exporting a valid container and rebuilding from that export gives back a
/// container in the very same state: algorithm, role and all four byte fields.
pub proof fn lemma_export_round_trip(c: ContainerView)
    requires
        c.well_formed(),
    ensures
        container_of(export_of(c)) == Some(c),
{
}

fn fits(o: &Option<Vec<u8>>, len: usize) -> (r: bool)
    ensures
        r == (bytes_opt(*o) matches Some(s) ==> s.len() == len),
{
    match o {
        Some(v) => v.len() == len,
        None => true,
    }
}

impl PostQuantumExport {
    /// Takes a snapshot of `container`.
    pub fn from_container(container: &PostQuantumContainer) -> (r: Self)
        ensures
            r@ == export_of(container@),
    {
        let public_key = slice_to_vec(container.get_public_key());
        let secret_key = match container.get_secret_key() {
            Ok(s) => Some(slice_to_vec(s)),
            Err(_) => None,
        };
        let ciphertext = match container.get_ciphertext() {
            Ok(s) => Some(slice_to_vec(s)),
            Err(_) => None,
        };
        let shared_secret = match container.get_shared_secret() {
            Ok(s) => Some(slice_to_vec(s)),
            Err(_) => None,
        };
        Self { algorithm: container.get_algorithm_idx(), public_key, secret_key, ciphertext, shared_secret }
    }
}

impl PostQuantumContainer {
    /// Rebuilds a container from an export. The export may come from elsewhere,
    /// so it is checked: `DecodeError` unless it describes a valid container
    /// state (a supported algorithm, fields of the algorithm's lengths, and the
    /// fields of Alice or of Bob present).
    pub fn from_export(export: PostQuantumExport) -> (r: Result<Self, PqError>)
        ensures
            r is Ok <==> container_of(export@) is Some,
            r matches Ok(c) ==> container_of(export@) == Some(c@),
            r matches Err(e) ==> e == PqError::DecodeError,
    {
        let algorithm = export.algorithm;
        if !algorithm_is_supported(algorithm) {
            return Err(PqError::DecodeError);
        }
        let valid = export.public_key.len() == public_key_length(algorithm)
            && fits(&export.secret_key, secret_key_length(algorithm))
            && fits(&export.ciphertext, ciphertext_length(algorithm))
            && fits(&export.shared_secret, shared_secret_length(algorithm))
            && export.ciphertext.is_some() == export.shared_secret.is_some()
            && (export.secret_key.is_some() || export.ciphertext.is_some());
        if !valid {
            return Err(PqError::DecodeError);
        }
        let node = if export.secret_key.is_some() {
            PQNode::Alice
        } else {
            PQNode::Bob
        };
        let PostQuantumExport { algorithm, public_key, secret_key, ciphertext, shared_secret } =
            export;
        let data = KeyMaterial { public_key, secret_key, ciphertext, shared_secret };
        Ok(PostQuantumContainer::from_parts(algorithm, node, data))
    }
}

} // verus!
