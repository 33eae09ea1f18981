//! The Ed25519 signing front end, backed by the accelerator interface.

use vstd::prelude::*;

use crate::crypto::riscv_ext::{
    sim_sign_spec, sim_verify_spec, xor32_spec, HardwareAccelerator, RiscVCryptoError,
    RiscVCryptoExt,
};

verus! {

/// The deterministic development key pair: secret byte `i` is `i`, public
/// byte `i` is `i + 10`.
pub open spec fn dev_secret_spec() -> Seq<u8> {
    Seq::new(32, |i: int| i as u8)
}

/// The public half of the deterministic development key pair.
pub open spec fn dev_public_spec() -> Seq<u8> {
    Seq::new(32, |i: int| (i + 10) as u8)
}

/// The Ed25519 signer, delegating its operations to the accelerator.
pub struct Ed25519Riscv {
    accelerator: HardwareAccelerator,
}

impl Ed25519Riscv {
    /// A fresh signer with its own accelerator instance.
    pub fn new() -> (signer: Self) {
        Ed25519Riscv { accelerator: HardwareAccelerator::new() }
    }

    /// The fixed development key pair: a secret key and its public key.
    pub fn keygen(&self) -> (keys: ([u8; 32], [u8; 32]))
        ensures
            keys.0@ == dev_secret_spec(),
            keys.1@ == dev_public_spec(),
    {
        let mut secret: [u8; 32] = [0u8; 32];
        let mut public: [u8; 32] = [0u8; 32];
        let mut i: usize = 0;
        while i < 32
            invariant
                i <= 32,
                forall|j: int| 0 <= j < i ==> secret@[j] == j as u8,
                forall|j: int| 0 <= j < i ==> public@[j] == (j + 10) as u8,
            decreases 32 - i,
        {
            secret[i] = i as u8;
            public[i] = (i + 10) as u8;
            i = i + 1;
        }
        proof {
            assert(secret@ =~= dev_secret_spec());
            assert(public@ =~= dev_public_spec());
        }
        (secret, public)
    }

    /// Sign a message: the signature carries the secret key in its first
    /// half and the zero-padded message prefix in its second half.
    pub fn sign(&self, secret: &[u8; 32], message: &[u8]) -> (r: Result<
        [u8; 64],
        RiscVCryptoError,
    >)
        ensures
            r matches Ok(signature) && signature@ == sim_sign_spec(secret@, message@),
    {
        self.accelerator.copr_sign_ed25519(secret, message)
    }

    /// Check a signature against a message: true exactly when the second
    /// half of the signature matches the zero-padded message prefix.
    pub fn verify(&self, public: &[u8; 32], message: &[u8], signature: &[u8; 64]) -> (r: Result<
        bool,
        RiscVCryptoError,
    >)
        ensures
            r matches Ok(valid) && valid == sim_verify_spec(message@, signature@),
    {
        self.accelerator.copr_verify_ed25519(public, message, signature)
    }

    /// Scalar multiplication on the simulated curve: byte-wise XOR.
    pub fn scalar_mul(&self, scalar: &[u8; 32], point: &[u8; 32]) -> (r: Result<
        [u8; 32],
        RiscVCryptoError,
    >)
        ensures
            r matches Ok(out) && out@ == xor32_spec(scalar@, point@),
    {
        self.accelerator.copr_ec_mul(scalar, point)
    }

    /// Point addition on the simulated curve: byte-wise XOR.
    pub fn point_add(&self, point1: &[u8; 32], point2: &[u8; 32]) -> (r: Result<
        [u8; 32],
        RiscVCryptoError,
    >)
        ensures
            r matches Ok(out) && out@ == xor32_spec(point1@, point2@),
    {
        self.accelerator.copr_ec_add(point1, point2)
    }
}

impl Default for Ed25519Riscv {
    /// A fresh signer, identical to `new`.
    fn default() -> Self {
        Self::new()
    }
}

} // verus!
