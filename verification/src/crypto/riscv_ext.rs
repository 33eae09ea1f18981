//! The RISC-V crypto-extension interface and its simulated accelerator.
//!
//! The trait pins down, operation by operation, what an accelerator
//! returns; the one implementation here is the software simulation the
//! rest of the system is built and tested against.

use vstd::prelude::*;

verus! {

broadcast use vstd::array::group_array_axioms;

/// An error raised by a crypto-extension operation.
#[derive(Debug)]
pub struct RiscVCryptoError {
    message: String,
}

impl RiscVCryptoError {
    /// The error's description.
    pub closed spec fn spec_message(&self) -> Seq<char> {
        self.message@
    }

    /// Wrap a description in an error value.
    pub fn new(message: String) -> (r: Self)
        ensures
            r.spec_message() == message@,
    {
        RiscVCryptoError { message }
    }

    /// Describe the error.
    pub fn message(&self) -> (r: String)
        ensures
            r@ == self.spec_message(),
    {
        self.message.clone()
    }
}

/// The simulated cipher output: each input byte XORed with 0x42, zero
/// padded up to the 16-byte minimum block length.
pub open spec fn sim_encrypt_spec(input: Seq<u8>) -> Seq<u8> {
    Seq::new(
        if input.len() < 16 { 16 } else { input.len() },
        |i: int| if i < input.len() { input[i] ^ 0x42 } else { 0u8 },
    )
}

/// The simulated decipher output: each byte XORed with 0x42.
pub open spec fn sim_decrypt_spec(input: Seq<u8>) -> Seq<u8> {
    Seq::new(input.len(), |i: int| input[i] ^ 0x42)
}

/// The simulated coprocessor digest: the first 32 input bytes, zero padded.
pub open spec fn sim_digest_spec(input: Seq<u8>) -> Seq<u8> {
    Seq::new(32, |i: int| if i < input.len() { input[i] } else { 0u8 })
}

/// Byte-wise XOR of two 32-byte operands, the simulated curve operation.
pub open spec fn xor32_spec(a: Seq<u8>, b: Seq<u8>) -> Seq<u8>
    recommends
        a.len() == 32,
        b.len() == 32,
{
    Seq::new(32, |i: int| a[i] ^ b[i])
}

/// The simulated signature: the secret key in the first half, the message
/// (truncated to 32 bytes and zero padded) in the second half.
pub open spec fn sim_sign_spec(secret: Seq<u8>, message: Seq<u8>) -> Seq<u8>
    recommends
        secret.len() == 32,
{
    Seq::new(
        64,
        |i: int|
            if i < 32 {
                secret[i]
            } else if i - 32 < message.len() {
                message[i - 32]
            } else {
                0u8
            },
    )
}

/// Whether a signature passes the simulated check: its second half must
/// equal the message truncated to 32 bytes and zero padded.
pub open spec fn sim_verify_spec(message: Seq<u8>, signature: Seq<u8>) -> bool
    recommends
        signature.len() == 64,
{
    forall|i: int|
        32 <= i < 64 ==> signature[i] == (if i - 32 < message.len() {
            message[i - 32]
        } else {
            0u8
        })
}

/// The views of a sequence of byte vectors.
pub open spec fn byte_views(s: Seq<Vec<u8>>) -> Seq<Seq<u8>> {
    Seq::new(s.len(), |i: int| s[i]@)
}

/// One multi-scalar-multiplication step: XOR `p[i] & s[i]` into the
/// accumulator wherever all three are in range.
pub open spec fn msm_step_spec(acc: Seq<u8>, p: Seq<u8>, s: Seq<u8>) -> Seq<u8> {
    Seq::new(
        acc.len(),
        |i: int|
            if i < 32 && i < p.len() && i < s.len() {
                acc[i] ^ (p[i] & s[i])
            } else {
                acc[i]
            },
    )
}

/// The accumulator after folding the first `k` point/scalar pairs.
pub open spec fn msm_fold_spec(acc: Seq<u8>, ps: Seq<Seq<u8>>, ss: Seq<Seq<u8>>, k: int) -> Seq<u8>
    decreases k,
{
    if k <= 0 {
        acc
    } else {
        msm_step_spec(msm_fold_spec(acc, ps, ss, k - 1), ps[k - 1], ss[k - 1])
    }
}

/// The simulated multi-scalar multiplication over all paired inputs.
pub open spec fn msm_spec(ps: Seq<Seq<u8>>, ss: Seq<Seq<u8>>) -> Seq<u8> {
    let pairs = if ps.len() < ss.len() { ps.len() } else { ss.len() };
    msm_fold_spec(Seq::new(32, |i: int| 0u8), ps, ss, pairs as int)
}

/// The crypto operations an accelerator must provide, with the exact
/// result each one returns.
pub trait RiscVCryptoExt {
    /// Whether the accelerator is switched on; when it is off, the cipher
    /// operations fail.
    spec fn accel_enabled(&self) -> bool;

    /// AES-256 encryption.
    fn copr_encrypt_aes256(&self, input: &[u8], key: &[u8; 32]) -> (r: Result<
        Vec<u8>,
        RiscVCryptoError,
    >)
        ensures
            r matches Ok(out) ==> self.accel_enabled() && out@ == sim_encrypt_spec(input@),
            r is Err ==> !self.accel_enabled(),
    ;

    /// AES-256 decryption.
    fn copr_decrypt_aes256(&self, input: &[u8], key: &[u8; 32]) -> (r: Result<
        Vec<u8>,
        RiscVCryptoError,
    >)
        ensures
            r matches Ok(out) ==> self.accel_enabled() && input@.len() > 0 && out@
                == sim_decrypt_spec(input@),
            r is Err ==> !self.accel_enabled() || input@.len() == 0,
    ;

    /// SHA-256 coprocessor digest.
    fn copr_hash_sha256(&self, input: &[u8]) -> (r: Result<[u8; 32], RiscVCryptoError>)
        ensures
            r matches Ok(out) && out@ == sim_digest_spec(input@),
    ;

    /// Elliptic-curve scalar multiplication.
    fn copr_ec_mul(&self, scalar: &[u8; 32], point: &[u8; 32]) -> (r: Result<
        [u8; 32],
        RiscVCryptoError,
    >)
        ensures
            r matches Ok(out) && out@ == xor32_spec(scalar@, point@),
    ;

    /// Elliptic-curve point addition.
    fn copr_ec_add(&self, point1: &[u8; 32], point2: &[u8; 32]) -> (r: Result<
        [u8; 32],
        RiscVCryptoError,
    >)
        ensures
            r matches Ok(out) && out@ == xor32_spec(point1@, point2@),
    ;

    /// Ed25519 signing.
    fn copr_sign_ed25519(&self, secret: &[u8; 32], message: &[u8]) -> (r: Result<
        [u8; 64],
        RiscVCryptoError,
    >)
        ensures
            r matches Ok(out) && out@ == sim_sign_spec(secret@, message@),
    ;

    /// Ed25519 verification.
    fn copr_verify_ed25519(&self, public: &[u8; 32], message: &[u8], signature: &[u8; 64]) -> (r:
        Result<bool, RiscVCryptoError>)
        ensures
            r matches Ok(out) && out == sim_verify_spec(message@, signature@),
    ;

    /// Zero-knowledge proof generation.
    fn copr_zkp_prove(&self, witness: &[u8]) -> (r: Result<Vec<u8>, RiscVCryptoError>)
        ensures
            r matches Ok(out) && out@ == witness@,
    ;

    /// Zero-knowledge proof verification.
    fn copr_zkp_verify(&self, proof: &[u8], public_input: &[u8]) -> (r: Result<
        bool,
        RiscVCryptoError,
    >)
        ensures
            r matches Ok(out) && out == (proof@.len() > 0),
    ;

    /// Multi-scalar multiplication.
    fn copr_msm_accelerate(&self, points: &[Vec<u8>], scalars: &[Vec<u8>]) -> (r: Result<
        Vec<u8>,
        RiscVCryptoError,
    >)
        ensures
            r matches Ok(out) && out@ == msm_spec(byte_views(points@), byte_views(scalars@)),
    ;
}

/// The software simulation of the RISC-V crypto accelerator.
pub struct HardwareAccelerator {
    /// When false, cipher operations report an error; `new` switches it on.
    enabled: bool,
    /// The simulated device path.
    device_path: String,
}

impl HardwareAccelerator {
    /// A fresh accelerator, switched on.
    pub fn new() -> (accel: Self)
        ensures
            accel.accel_enabled(),
    {
        HardwareAccelerator { enabled: true, device_path: "/dev/crypto0".to_string() }
    }
}

impl RiscVCryptoExt for HardwareAccelerator {
    closed spec fn accel_enabled(&self) -> bool {
        self.enabled
    }

    fn copr_encrypt_aes256(&self, input: &[u8], key: &[u8; 32]) -> (r: Result<
        Vec<u8>,
        RiscVCryptoError,
    >) {
        if !self.enabled {
            return Err(RiscVCryptoError { message: "Accelerator disabled".to_string() });
        }
        let out_len = if input.len() < 16 {
            16
        } else {
            input.len()
        };
        let mut output: Vec<u8> = Vec::new();
        let mut i: usize = 0;
        while i < out_len
            invariant
                i <= out_len,
                out_len == if input@.len() < 16 { 16int } else { input@.len() as int },
                output@.len() == i,
                forall|j: int| 0 <= j < i ==> output@[j] == sim_encrypt_spec(input@)[j],
            decreases out_len - i,
        {
            if i < input.len() {
                output.push(input[i] ^ 0x42);
            } else {
                output.push(0);
            }
            i = i + 1;
        }
        proof {
            assert(output@ =~= sim_encrypt_spec(input@));
        }
        Ok(output)
    }

    fn copr_decrypt_aes256(&self, input: &[u8], key: &[u8; 32]) -> (r: Result<
        Vec<u8>,
        RiscVCryptoError,
    >) {
        if !self.enabled {
            return Err(RiscVCryptoError { message: "Accelerator disabled".to_string() });
        }
        if input.is_empty() {
            return Err(RiscVCryptoError { message: "Invalid input".to_string() });
        }
        let mut output: Vec<u8> = Vec::new();
        let mut i: usize = 0;
        while i < input.len()
            invariant
                i <= input@.len(),
                output@.len() == i,
                forall|j: int| 0 <= j < i ==> output@[j] == sim_decrypt_spec(input@)[j],
            decreases input@.len() - i,
        {
            output.push(input[i] ^ 0x42);
            i = i + 1;
        }
        proof {
            assert(output@ =~= sim_decrypt_spec(input@));
        }
        Ok(output)
    }

    fn copr_hash_sha256(&self, input: &[u8]) -> (r: Result<[u8; 32], RiscVCryptoError>) {
        let mut hash: [u8; 32] = [0u8; 32];
        proof {
            vstd::array::axiom_spec_array_fill_for_copy_type::<u8, 32>(0u8);
            assert(forall|j: int| 0 <= j < 32 ==> hash@[j] == 0u8);
        }
        let mut i: usize = 0;
        while i < 32
            invariant
                i <= 32,
                forall|j: int| 0 <= j < i ==> hash@[j] == sim_digest_spec(input@)[j],
                forall|j: int| i <= j < 32 ==> hash@[j] == 0u8,
            decreases 32 - i,
        {
            if i < input.len() {
                hash[i] = input[i];
            }
            i = i + 1;
        }
        proof {
            assert(hash@ =~= sim_digest_spec(input@));
        }
        Ok(hash)
    }

    fn copr_ec_mul(&self, scalar: &[u8; 32], point: &[u8; 32]) -> (r: Result<
        [u8; 32],
        RiscVCryptoError,
    >) {
        let mut result: [u8; 32] = [0u8; 32];
        let mut i: usize = 0;
        while i < 32
            invariant
                i <= 32,
                forall|j: int| 0 <= j < i ==> result@[j] == (scalar@[j] ^ point@[j]),
            decreases 32 - i,
        {
            result[i] = scalar[i] ^ point[i];
            i = i + 1;
        }
        proof {
            assert(result@ =~= xor32_spec(scalar@, point@));
        }
        Ok(result)
    }

    fn copr_ec_add(&self, point1: &[u8; 32], point2: &[u8; 32]) -> (r: Result<
        [u8; 32],
        RiscVCryptoError,
    >) {
        let mut result: [u8; 32] = [0u8; 32];
        let mut i: usize = 0;
        while i < 32
            invariant
                i <= 32,
                forall|j: int| 0 <= j < i ==> result@[j] == (point1@[j] ^ point2@[j]),
            decreases 32 - i,
        {
            result[i] = point1[i] ^ point2[i];
            i = i + 1;
        }
        proof {
            assert(result@ =~= xor32_spec(point1@, point2@));
        }
        Ok(result)
    }

    fn copr_sign_ed25519(&self, secret: &[u8; 32], message: &[u8]) -> (r: Result<
        [u8; 64],
        RiscVCryptoError,
    >) {
        let mut signature: [u8; 64] = [0u8; 64];
        proof {
            vstd::array::axiom_spec_array_fill_for_copy_type::<u8, 64>(0u8);
            assert(forall|j: int| 0 <= j < 64 ==> signature@[j] == 0u8);
        }
        let mut i: usize = 0;
        while i < 32
            invariant
                i <= 32,
                forall|j: int| 0 <= j < i ==> signature@[j] == secret@[j],
                forall|j: int| i <= j < 64 ==> signature@[j] == 0u8,
            decreases 32 - i,
        {
            signature[i] = secret[i];
            i = i + 1;
        }
        let mut i: usize = 0;
        while i < 32
            invariant
                i <= 32,
                forall|j: int| 0 <= j < 32 ==> signature@[j] == secret@[j],
                forall|j: int|
                    32 <= j < 32 + i ==> signature@[j] == (if j - 32 < message@.len() {
                        message@[j - 32]
                    } else {
                        0u8
                    }),
                forall|j: int| 32 + i <= j < 64 ==> signature@[j] == 0u8,
            decreases 32 - i,
        {
            if i < message.len() {
                signature[32 + i] = message[i];
            }
            i = i + 1;
        }
        proof {
            assert(signature@ =~= sim_sign_spec(secret@, message@));
        }
        Ok(signature)
    }

    fn copr_verify_ed25519(&self, public: &[u8; 32], message: &[u8], signature: &[u8; 64]) -> (r:
        Result<bool, RiscVCryptoError>) {
        let mut check = true;
        let mut i: usize = 0;
        while i < 32
            invariant
                i <= 32,
                check == (forall|j: int|
                    32 <= j < 32 + i ==> signature@[j] == (if j - 32 < message@.len() {
                        message@[j - 32]
                    } else {
                        0u8
                    })),
            decreases 32 - i,
        {
            let msg_byte = if i < message.len() {
                message[i]
            } else {
                0
            };
            if signature[32 + i] != msg_byte {
                check = false;
            }
            i = i + 1;
        }
        Ok(check)
    }

    fn copr_zkp_prove(&self, witness: &[u8]) -> (r: Result<Vec<u8>, RiscVCryptoError>) {
        Ok(vstd::slice::slice_to_vec(witness))
    }

    fn copr_zkp_verify(&self, proof: &[u8], public_input: &[u8]) -> (r: Result<
        bool,
        RiscVCryptoError,
    >) {
        Ok(!proof.is_empty())
    }

    fn copr_msm_accelerate(&self, points: &[Vec<u8>], scalars: &[Vec<u8>]) -> (r: Result<
        Vec<u8>,
        RiscVCryptoError,
    >) {
        Ok(msm_exec(points, scalars))
    }
}

/// Fold every point/scalar pair into a 32-byte accumulator, the shared
/// body of the accelerated multi-scalar multiplications.
pub(crate) fn msm_exec(points: &[Vec<u8>], scalars: &[Vec<u8>]) -> (out: Vec<u8>)
    ensures
        out@ == msm_spec(byte_views(points@), byte_views(scalars@)),
{
    let pairs: usize = if points.len() < scalars.len() {
        points.len()
    } else {
        scalars.len()
    };
    let mut result: Vec<u8> = Vec::new();
    let mut i: usize = 0;
    while i < 32
        invariant
            i <= 32,
            result@.len() == i,
            forall|j: int| 0 <= j < i ==> result@[j] == 0u8,
        decreases 32 - i,
    {
        result.push(0);
        i = i + 1;
    }
    proof {
        assert(result@ =~= Seq::new(32, |t: int| 0u8));
    }
    let ghost ps = byte_views(points@);
    let ghost ss = byte_views(scalars@);
    let mut k: usize = 0;
    while k < pairs
        invariant
            k <= pairs,
            pairs == if ps.len() < ss.len() { ps.len() } else { ss.len() },
            ps == byte_views(points@),
            ss == byte_views(scalars@),
            result@.len() == 32,
            result@ == msm_fold_spec(Seq::new(32, |t: int| 0u8), ps, ss, k as int),
        decreases pairs - k,
    {
        let ghost before = result@;
        let p = &points[k];
        let s = &scalars[k];
        let bound: usize = {
            let mut b: usize = 32;
            if p.len() < b {
                b = p.len();
            }
            if s.len() < b {
                b = s.len();
            }
            b
        };
        let mut i: usize = 0;
        while i < bound
            invariant
                i <= bound,
                bound <= 32,
                bound <= p@.len(),
                bound <= s@.len(),
                p == points[k as int],
                s == scalars[k as int],
                k < points@.len() && k < scalars@.len(),
                bound == if p@.len() < 32 || s@.len() < 32 {
                    if p@.len() < s@.len() { p@.len() as int } else { s@.len() as int }
                } else {
                    32int
                },
                result@.len() == 32,
                forall|j: int| 0 <= j < i ==> result@[j] == (before[j] ^ (p@[j] & s@[j])),
                forall|j: int| i <= j < 32 ==> result@[j] == before[j],
            decreases bound - i,
        {
            let updated = result[i] ^ (p[i] & s[i]);
            result[i] = updated;
            i = i + 1;
        }
        proof {
            assert(ps[k as int] == p@);
            assert(ss[k as int] == s@);
            assert(result@ =~= msm_step_spec(before, ps[k as int], ss[k as int]));
            assert(result@ == msm_fold_spec(Seq::new(32, |t: int| 0u8), ps, ss, k + 1));
        }
        k = k + 1;
    }
    result
}

} // verus!
