//! The proof system: verifying-key setup, proof generation and checking,
//! and the accelerated bulk operations behind them.

use vstd::prelude::*;

use crate::crypto::riscv_ext::{byte_views, msm_exec, msm_spec};

verus! {

/// A generated proof: its three element groups and the protocol tag.
#[derive(Debug)]
pub struct Proof {
    pub pi_a: Vec<[u8; 4]>,
    pub pi_b: Vec<[[u8; 4]; 2]>,
    pub pi_c: Vec<[u8; 4]>,
    pub protocol: String,
}

impl Proof {
    /// An empty proof carrying only the protocol tag.
    pub fn new() -> (proof: Self)
        ensures
            proof.pi_a@ == Seq::<[u8; 4]>::empty(),
            proof.pi_b@ == Seq::<[[u8; 4]; 2]>::empty(),
            proof.pi_c@ == Seq::<[u8; 4]>::empty(),
            proof.protocol@ == "groth16"@,
    {
        Proof { pi_a: Vec::new(), pi_b: Vec::new(), pi_c: Vec::new(), protocol: "groth16".to_string() }
    }
}

/// The public parameters a proof is checked against.
#[derive(Debug)]
pub struct VerifyingKey {
    pub alpha: [u8; 32],
    pub beta: [u8; 32],
    pub gamma: [u8; 32],
    pub delta: [u8; 32],
    /// The coefficients for the linear combination of the public inputs.
    pub gamma_abc: Vec<[u8; 32]>,
}

impl VerifyingKey {
    /// An all-zero key with no coefficients.
    pub fn new() -> (vk: Self)
        ensures
            vk.alpha@ == Seq::new(32, |i: int| 0u8),
            vk.beta@ == Seq::new(32, |i: int| 0u8),
            vk.gamma@ == Seq::new(32, |i: int| 0u8),
            vk.delta@ == Seq::new(32, |i: int| 0u8),
            vk.gamma_abc@ == Seq::<[u8; 32]>::empty(),
    {
        let zero: [u8; 32] = [0u8; 32];
        proof {
            vstd::array::axiom_spec_array_fill_for_copy_type::<u8, 32>(0u8);
            assert(zero@ =~= Seq::new(32, |i: int| 0u8));
        }
        VerifyingKey { alpha: zero, beta: zero, gamma: zero, delta: zero, gamma_abc: Vec::new() }
    }
}

/// Chunk `i` of a witness: its bytes 32i..32i+32, zero padded at the end.
pub open spec fn witness_chunk_spec(witness: Seq<u8>, i: int) -> Seq<u8> {
    Seq::new(
        32,
        |j: int|
            if 32 * i + j < witness.len() {
                witness[32 * i + j]
            } else {
                0u8
            },
    )
}

/// The public part of a proof: one 32-byte value per witness chunk.
#[derive(Debug)]
pub struct PublicInput {
    pub values: Vec<[u8; 32]>,
}

impl PublicInput {
    /// Split a witness into 32-byte public values, zero-padding the final
    /// chunk.
    pub fn from_witness(witness: &[u8]) -> (input: Self)
        requires
            witness@.len() + 32 <= usize::MAX,
        ensures
            input.values@.len() == (witness@.len() + 31) as int / 32,
            forall|i: int|
                0 <= i < input.values@.len() ==> (#[trigger] input.values@[i])@
                    == witness_chunk_spec(witness@, i),
    {
        let ghost chunk_count = (witness@.len() + 31) as int / 32;
        let mut values: Vec<[u8; 32]> = Vec::new();
        let mut offset: usize = 0;
        while offset < witness.len()
            invariant
                witness@.len() + 32 <= usize::MAX,
                offset < witness@.len() + 32,
                offset % 32 == 0,
                values@.len() == offset as int / 32,
                forall|i: int|
                    0 <= i < values@.len() ==> (#[trigger] values@[i])@ == witness_chunk_spec(
                        witness@,
                        i,
                    ),
            decreases witness@.len() + 32 - offset,
        {
            let mut chunk: [u8; 32] = [0u8; 32];
            proof {
                vstd::array::axiom_spec_array_fill_for_copy_type::<u8, 32>(0u8);
                assert(forall|t: int| 0 <= t < 32 ==> chunk@[t] == 0u8);
            }
            let mut j: usize = 0;
            while j < 32
                invariant
                    j <= 32,
                    offset + 32 <= usize::MAX,
                    offset % 32 == 0,
                    offset < witness@.len(),
                    forall|t: int|
                        0 <= t < j ==> chunk@[t] == (if offset + t < witness@.len() {
                            witness@[offset + t]
                        } else {
                            0u8
                        }),
                    forall|t: int| j <= t < 32 ==> chunk@[t] == 0u8,
                decreases 32 - j,
            {
                if offset + j < witness.len() {
                    chunk[j] = witness[offset + j];
                }
                j = j + 1;
            }
            proof {
                let idx = offset as int / 32;
                vstd::arithmetic::div_mod::lemma_fundamental_div_mod(offset as int, 32);
                assert(offset as int == 32 * idx);
                assert(chunk@ =~= witness_chunk_spec(witness@, idx));
                assert((offset + 32) as int / 32 == idx + 1);
            }
            values.push(chunk);
            offset = offset + 32;
            proof {
                vstd::arithmetic::div_mod::lemma_add_mod_noop(
                    offset as int - 32,
                    32,
                    32,
                );
            }
        }
        proof {
            vstd::arithmetic::div_mod::lemma_fundamental_div_mod(offset as int, 32);
            assert(values@.len() == chunk_count) by {
                assert(offset as int == 32 * (offset as int / 32));
                assert(witness@.len() <= offset < witness@.len() + 32);
                vstd::arithmetic::div_mod::lemma_fundamental_div_mod(
                    (witness@.len() + 31) as int,
                    32,
                );
            };
        }
        PublicInput { values }
    }
}

/// The failure kinds proof verification can report.
#[derive(Debug, Clone, Copy, PartialEq, Eq, Structural)]
pub enum ZKProofErrorKind {
    InvalidProofStructure,
    InvalidVerifyingKey,
}

/// A failure reported by the proof system.
#[derive(Debug)]
pub struct ZKProofError {
    pub kind: ZKProofErrorKind,
}

impl ZKProofError {
    /// Describe the error.
    pub fn message(&self) -> String {
        match self.kind {
            ZKProofErrorKind::InvalidProofStructure => "Invalid proof structure".to_string(),
            ZKProofErrorKind::InvalidVerifyingKey => "Invalid verifying key".to_string(),
        }
    }
}

/// Byte `j` of proof word `off`: the matching witness byte XORed with the
/// word's offset plus the byte position, zero where the witness runs out.
pub open spec fn proof_word_spec(witness: Seq<u8>, off: int) -> Seq<u8>
    recommends
        0 <= off <= 25,
{
    Seq::new(
        4,
        |j: int|
            if j < witness.len() {
                witness[j] ^ ((off + j) as u8)
            } else {
                0u8
            },
    )
}

/// The proof system: setup, proof generation, verification, and the
/// accelerated bulk operations.
#[derive(Debug)]
pub struct ZKGroth16 {
    /// Proofs processed per batch.
    pps: usize,
}

impl ZKGroth16 {
    /// Proofs processed per batch.
    pub closed spec fn spec_pps(self) -> usize {
        self.pps
    }

    /// A fresh proof system processing one proof per batch.
    pub fn new() -> (system: Self)
        ensures
            system.spec_pps() == 1,
    {
        ZKGroth16 { pps: 1 }
    }

    /// Trusted setup: the fixed verifying key, with ten zero coefficients.
    pub fn setup(&mut self) -> (vk: VerifyingKey)
        ensures
            *final(self) == *old(self),
            vk.alpha@ == Seq::new(32, |i: int| (i + 1) as u8),
            vk.beta@ == Seq::new(32, |i: int| (i + 2) as u8),
            vk.gamma@ == Seq::new(32, |i: int| (i + 3) as u8),
            vk.delta@ == Seq::new(32, |i: int| (i + 4) as u8),
            vk.gamma_abc@.len() == 10,
            forall|i: int|
                0 <= i < 10 ==> (#[trigger] vk.gamma_abc@[i])@ == Seq::new(32, |j: int| 0u8),
    {
        let mut vk = VerifyingKey::new();
        let mut i: usize = 0;
        while i < 32
            invariant
                i <= 32,
                forall|j: int| 0 <= j < i ==> vk.alpha@[j] == (j + 1) as u8,
                forall|j: int| 0 <= j < i ==> vk.beta@[j] == (j + 2) as u8,
                forall|j: int| 0 <= j < i ==> vk.gamma@[j] == (j + 3) as u8,
                forall|j: int| 0 <= j < i ==> vk.delta@[j] == (j + 4) as u8,
                vk.gamma_abc@.len() == 0,
            decreases 32 - i,
        {
            vk.alpha[i] = (i + 1) as u8;
            vk.beta[i] = (i + 2) as u8;
            vk.gamma[i] = (i + 3) as u8;
            vk.delta[i] = (i + 4) as u8;
            i = i + 1;
        }
        let zero: [u8; 32] = [0u8; 32];
        proof {
            vstd::array::axiom_spec_array_fill_for_copy_type::<u8, 32>(0u8);
            assert(zero@ =~= Seq::new(32, |j: int| 0u8));
        }
        let mut i: usize = 0;
        while i < 10
            invariant
                i <= 10,
                forall|j: int| 0 <= j < 32 ==> vk.alpha@[j] == (j + 1) as u8,
                forall|j: int| 0 <= j < 32 ==> vk.beta@[j] == (j + 2) as u8,
                forall|j: int| 0 <= j < 32 ==> vk.gamma@[j] == (j + 3) as u8,
                forall|j: int| 0 <= j < 32 ==> vk.delta@[j] == (j + 4) as u8,
                zero@ == Seq::new(32, |j: int| 0u8),
                vk.gamma_abc@.len() == i,
                forall|j: int|
                    0 <= j < i ==> (#[trigger] vk.gamma_abc@[j])@ == Seq::new(32, |t: int| 0u8),
            decreases 10 - i,
        {
            vk.gamma_abc.push(zero);
            i = i + 1;
        }
        proof {
            assert(zero@ =~= Seq::new(32, |j: int| 0u8));
            assert(vk.alpha@ =~= Seq::new(32, |i: int| (i + 1) as u8));
            assert(vk.beta@ =~= Seq::new(32, |i: int| (i + 2) as u8));
            assert(vk.gamma@ =~= Seq::new(32, |i: int| (i + 3) as u8));
            assert(vk.delta@ =~= Seq::new(32, |i: int| (i + 4) as u8));
        }
        vk
    }

    /// Generate a proof over a witness: three, six and two four-byte
    /// words, each the witness prefix XOR-tagged with its offset.
    pub fn generate_proof(&mut self, witness: &[u8]) -> (r: Result<Proof, ZKProofError>)
        ensures
            *final(self) == *old(self),
            r matches Ok(proof) ==> {
                &&& proof.pi_a@.len() == 3
                &&& forall|i: int|
                    0 <= i < 3 ==> (#[trigger] proof.pi_a@[i])@ == proof_word_spec(witness@, i)
                &&& proof.pi_b@.len() == 6
                &&& forall|i: int|
                    0 <= i < 6 ==> (#[trigger] proof.pi_b@[i])@[0]@ == proof_word_spec(witness@, i)
                &&& forall|i: int|
                    0 <= i < 6 ==> (#[trigger] proof.pi_b@[i])@[1]@ == proof_word_spec(
                        witness@,
                        i + 10,
                    )
                &&& proof.pi_c@.len() == 2
                &&& forall|i: int|
                    0 <= i < 2 ==> (#[trigger] proof.pi_c@[i])@ == proof_word_spec(
                        witness@,
                        i + 20,
                    )
                &&& proof.protocol@ == "groth16"@
            },
            r is Ok,
    {
        let mut proof_value = Proof::new();
        let mut i: usize = 0;
        while i < 3
            invariant
                i <= 3,
                proof_value.pi_a@.len() == i,
                forall|t: int|
                    0 <= t < i ==> (#[trigger] proof_value.pi_a@[t])@ == proof_word_spec(
                        witness@,
                        t,
                    ),
                proof_value.pi_b@.len() == 0,
                proof_value.pi_c@.len() == 0,
                proof_value.protocol@ == "groth16"@,
            decreases 3 - i,
        {
            let word = Self::proof_word(witness, i);
            proof_value.pi_a.push(word);
            i = i + 1;
        }
        let mut i: usize = 0;
        while i < 6
            invariant
                i <= 6,
                proof_value.pi_a@.len() == 3,
                forall|t: int|
                    0 <= t < 3 ==> (#[trigger] proof_value.pi_a@[t])@ == proof_word_spec(
                        witness@,
                        t,
                    ),
                proof_value.pi_b@.len() == i,
                forall|t: int|
                    0 <= t < i ==> (#[trigger] proof_value.pi_b@[t])@[0]@ == proof_word_spec(
                        witness@,
                        t,
                    ),
                forall|t: int|
                    0 <= t < i ==> (#[trigger] proof_value.pi_b@[t])@[1]@ == proof_word_spec(
                        witness@,
                        t + 10,
                    ),
                proof_value.pi_c@.len() == 0,
                proof_value.protocol@ == "groth16"@,
            decreases 6 - i,
        {
            let arr1 = Self::proof_word(witness, i);
            let arr2 = Self::proof_word(witness, i + 10);
            let pair: [[u8; 4]; 2] = [arr1, arr2];
            proof {
                assert(pair@[0] == arr1);
                assert(pair@[1] == arr2);
            }
            proof_value.pi_b.push(pair);
            i = i + 1;
        }
        let mut i: usize = 0;
        while i < 2
            invariant
                i <= 2,
                proof_value.pi_a@.len() == 3,
                forall|t: int|
                    0 <= t < 3 ==> (#[trigger] proof_value.pi_a@[t])@ == proof_word_spec(
                        witness@,
                        t,
                    ),
                proof_value.pi_b@.len() == 6,
                forall|t: int|
                    0 <= t < 6 ==> (#[trigger] proof_value.pi_b@[t])@[0]@ == proof_word_spec(
                        witness@,
                        t,
                    ),
                forall|t: int|
                    0 <= t < 6 ==> (#[trigger] proof_value.pi_b@[t])@[1]@ == proof_word_spec(
                        witness@,
                        t + 10,
                    ),
                proof_value.pi_c@.len() == i,
                forall|t: int|
                    0 <= t < i ==> (#[trigger] proof_value.pi_c@[t])@ == proof_word_spec(
                        witness@,
                        t + 20,
                    ),
                proof_value.protocol@ == "groth16"@,
            decreases 2 - i,
        {
            let word = Self::proof_word(witness, i + 20);
            proof_value.pi_c.push(word);
            i = i + 1;
        }
        Ok(proof_value)
    }

    /// One four-byte proof word at the given offset.
    fn proof_word(witness: &[u8], off: usize) -> (word: [u8; 4])
        requires
            off <= 25,
        ensures
            word@ == proof_word_spec(witness@, off as int),
    {
        let mut word: [u8; 4] = [0u8; 4];
        proof {
            vstd::array::axiom_spec_array_fill_for_copy_type::<u8, 4>(0u8);
            assert(forall|t: int| 0 <= t < 4 ==> word@[t] == 0u8);
        }
        let mut j: usize = 0;
        while j < 4
            invariant
                j <= 4,
                off <= 25,
                forall|t: int|
                    0 <= t < j ==> word@[t] == (if t < witness@.len() {
                        witness@[t] ^ ((off + t) as u8)
                    } else {
                        0u8
                    }),
                forall|t: int| j <= t < 4 ==> word@[t] == 0u8,
            decreases 4 - j,
        {
            if j < witness.len() {
                word[j] = witness[j] ^ ((off + j) as u8);
            }
            j = j + 1;
        }
        proof {
            assert(word@ =~= proof_word_spec(witness@, off as int));
        }
        word
    }

    /// Check a proof against a key and public input: rejects a proof with
    /// an empty element group, then a key with fewer coefficients than
    /// public values; otherwise reports whether the three groups have
    /// their full size.
    pub fn verify(&mut self, vk: &VerifyingKey, proof: &Proof, public_input: &PublicInput) -> (r:
        Result<bool, ZKProofError>)
        ensures
            *final(self) == *old(self),
            (proof.pi_a@.len() == 0 || proof.pi_b@.len() == 0 || proof.pi_c@.len() == 0) ==> (
            r matches Err(e) && e.kind == ZKProofErrorKind::InvalidProofStructure),
            (proof.pi_a@.len() > 0 && proof.pi_b@.len() > 0 && proof.pi_c@.len() > 0
                && vk.gamma_abc@.len() < public_input.values@.len()) ==> (r matches Err(e)
                && e.kind == ZKProofErrorKind::InvalidVerifyingKey),
            (proof.pi_a@.len() > 0 && proof.pi_b@.len() > 0 && proof.pi_c@.len() > 0
                && vk.gamma_abc@.len() >= public_input.values@.len()) ==> r == Ok::<
                bool,
                ZKProofError,
            >(proof.pi_a@.len() >= 3 && proof.pi_b@.len() >= 6 && proof.pi_c@.len() >= 2),
    {
        if proof.pi_a.is_empty() || proof.pi_b.is_empty() || proof.pi_c.is_empty() {
            return Err(ZKProofError { kind: ZKProofErrorKind::InvalidProofStructure });
        }
        if vk.gamma_abc.len() < public_input.values.len() {
            return Err(ZKProofError { kind: ZKProofErrorKind::InvalidVerifyingKey });
        }
        if proof.pi_a.len() >= 3 && proof.pi_b.len() >= 6 && proof.pi_c.len() >= 2 {
            Ok(true)
        } else {
            Ok(false)
        }
    }

    /// Accelerated multi-scalar multiplication over paired points and
    /// scalars.
    pub fn accelerated_msm(&self, points: &[Vec<u8>], scalars: &[Vec<u8>]) -> (r: Result<
        Vec<u8>,
        ZKProofError,
    >)
        ensures
            r matches Ok(out) && out@ == msm_spec(byte_views(points@), byte_views(scalars@)),
    {
        Ok(msm_exec(points, scalars))
    }

    /// Accelerated Fourier transform; the simulated transform returns the
    /// data unchanged.
    pub fn accelerated_fft(&self, data: &[Vec<u8>], inverse: bool) -> (r: Result<
        Vec<Vec<u8>>,
        ZKProofError,
    >)
        ensures
            r matches Ok(out) && out@.len() == data@.len() && forall|i: int|
                0 <= i < data@.len() ==> (#[trigger] out@[i])@ == data@[i]@,
    {
        let mut out: Vec<Vec<u8>> = Vec::new();
        let mut i: usize = 0;
        while i < data.len()
            invariant
                i <= data@.len(),
                out@.len() == i,
                forall|j: int| 0 <= j < i ==> (#[trigger] out@[j])@ == data@[j]@,
            decreases data@.len() - i,
        {
            out.push(vstd::slice::slice_to_vec(data[i].as_slice()));
            i = i + 1;
        }
        Ok(out)
    }

    /// Accelerated polynomial operations: empty for empty operands, else
    /// one four-byte zero word per coefficient of the product.
    pub fn accelerated_polynomial_ops(&self, a: &[Vec<u8>], b: &[Vec<u8>]) -> (r: Result<
        Vec<Vec<u8>>,
        ZKProofError,
    >)
        requires
            a@.len() + b@.len() <= usize::MAX,
        ensures
            (a@.len() == 0 || b@.len() == 0) ==> (r matches Ok(out) && out@.len() == 0),
            (a@.len() > 0 && b@.len() > 0) ==> (r matches Ok(out) && out@.len() == a@.len()
                + b@.len() - 1 && forall|i: int|
                0 <= i < out@.len() ==> (#[trigger] out@[i])@ == Seq::new(4, |j: int| 0u8)),
    {
        if a.is_empty() || b.is_empty() {
            return Ok(Vec::new());
        }
        let res_len = a.len() + b.len() - 1;
        let mut out: Vec<Vec<u8>> = Vec::new();
        let mut i: usize = 0;
        while i < res_len
            invariant
                i <= res_len,
                out@.len() == i,
                forall|j: int| 0 <= j < i ==> (#[trigger] out@[j])@ == Seq::new(4, |t: int| 0u8),
            decreases res_len - i,
        {
            let word = vec![0u8; 4];
            proof {
                assert(word@ =~= Seq::new(4, |t: int| 0u8));
            }
            out.push(word);
            i = i + 1;
        }
        Ok(out)
    }
}

impl Default for ZKGroth16 {
    /// A fresh proof system, identical to `new`.
    fn default() -> (system: Self)
        ensures
            system.spec_pps() == 1,
    {
        Self::new()
    }
}

} // verus!
