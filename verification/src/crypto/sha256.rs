//! An incremental SHA-256 engine.
//!
//! The digest of a byte stream is defined by the spec function
//! [`sha256_spec`], a direct transcription of the FIPS 180-4 algorithm:
//! the stream is padded, split into 64-byte blocks, and folded through the
//! compression function starting from the fixed initialization vector.
//! The executable engine buffers bytes, compresses each complete block as
//! it arrives, and is proved to return exactly `sha256_spec` of everything
//! it was fed.

use vstd::prelude::*;

verus! {

/// Upper bound on the number of bytes a single hashing session may consume:
/// the padded bit length must fit in the trailing 64-bit length field.
pub const MAX_MESSAGE_LEN: u64 = 0x1fff_ffff_ffff_ffff;

// ---------------------------------------------------------------------------
// Specification: the SHA-256 algorithm over mathematical sequences.
// ---------------------------------------------------------------------------

/// Rotate a 32-bit word right by `n` bits (0 < n < 32).
pub open spec fn rotr_spec(x: u32, n: u32) -> u32
    recommends
        0 < n < 32,
{
    (x >> n) | (x << ((32 - n) as u32))
}

/// Message-schedule mixing function: two rotations and a shift, XORed.
pub open spec fn small_sigma0(x: u32) -> u32 {
    rotr_spec(x, 7) ^ rotr_spec(x, 18) ^ (x >> 3u32)
}

/// Message-schedule mixing function: two rotations and a shift, XORed.
pub open spec fn small_sigma1(x: u32) -> u32 {
    rotr_spec(x, 17) ^ rotr_spec(x, 19) ^ (x >> 10u32)
}

/// Round function rotation mix applied to the first working variable.
pub open spec fn big_sigma0(x: u32) -> u32 {
    rotr_spec(x, 2) ^ rotr_spec(x, 13) ^ rotr_spec(x, 22)
}

/// Round function rotation mix applied to the fifth working variable.
pub open spec fn big_sigma1(x: u32) -> u32 {
    rotr_spec(x, 6) ^ rotr_spec(x, 11) ^ rotr_spec(x, 25)
}

/// The condition-select nonlinear function.
pub open spec fn ch(e: u32, f: u32, g: u32) -> u32 {
    (e & f) ^ ((!e) & g)
}

/// The majority nonlinear function.
pub open spec fn maj(a: u32, b: u32, c: u32) -> u32 {
    (a & b) ^ (a & c) ^ (b & c)
}

/// Big-endian 32-bit word `i` of a 64-byte block.
pub open spec fn be_word(block: Seq<u8>, i: int) -> u32
    recommends
        block.len() == 64,
        0 <= i < 16,
{
    ((block[4 * i] as u32) << 24u32) | ((block[4 * i + 1] as u32) << 16u32)
        | ((block[4 * i + 2] as u32) << 8u32) | (block[4 * i + 3] as u32)
}

/// Word `i` of the 64-entry message schedule: the first 16 words come
/// straight from the block, the rest mix earlier schedule words.
pub open spec fn sched(block: Seq<u8>, i: int) -> u32
    recommends
        block.len() == 64,
        0 <= i < 64,
    decreases i,
{
    if i < 16 {
        be_word(block, i)
    } else {
        sched(block, i - 16).wrapping_add(small_sigma0(sched(block, i - 15))).wrapping_add(
            sched(block, i - 7),
        ).wrapping_add(small_sigma1(sched(block, i - 2)))
    }
}

/// The SHA-256 round constants.
pub open spec fn k_spec(i: int) -> u32
    recommends
        0 <= i < 64,
{
    if i == 0 { 0x428a2f98 } else if i == 1 { 0x71374491 } else if i == 2 { 0xb5c0fbcf }
    else if i == 3 { 0xe9b5dba5 } else if i == 4 { 0x3956c25b } else if i == 5 { 0x59f111f1 }
    else if i == 6 { 0x923f82a4 } else if i == 7 { 0xab1c5ed5 } else if i == 8 { 0xd807aa98 }
    else if i == 9 { 0x12835b01 } else if i == 10 { 0x243185be } else if i == 11 { 0x550c7dc3 }
    else if i == 12 { 0x72be5d74 } else if i == 13 { 0x80deb1fe } else if i == 14 { 0x9bdc06a7 }
    else if i == 15 { 0xc19bf174 } else if i == 16 { 0xe49b69c1 } else if i == 17 { 0xefbe4786 }
    else if i == 18 { 0x0fc19dc6 } else if i == 19 { 0x240ca1cc } else if i == 20 { 0x2de92c6f }
    else if i == 21 { 0x4a7484aa } else if i == 22 { 0x5cb0a9dc } else if i == 23 { 0x76f988da }
    else if i == 24 { 0x983e5152 } else if i == 25 { 0xa831c66d } else if i == 26 { 0xb00327c8 }
    else if i == 27 { 0xbf597fc7 } else if i == 28 { 0xc6e00bf3 } else if i == 29 { 0xd5a79147 }
    else if i == 30 { 0x06ca6351 } else if i == 31 { 0x14292967 } else if i == 32 { 0x27b70a85 }
    else if i == 33 { 0x2e1b2138 } else if i == 34 { 0x4d2c6dfc } else if i == 35 { 0x53380d13 }
    else if i == 36 { 0x650a7354 } else if i == 37 { 0x766a0abb } else if i == 38 { 0x81c2c92e }
    else if i == 39 { 0x92722c85 } else if i == 40 { 0xa2bfe8a1 } else if i == 41 { 0xa81a664b }
    else if i == 42 { 0xc24b8b70 } else if i == 43 { 0xc76c51a3 } else if i == 44 { 0xd192e819 }
    else if i == 45 { 0xd6990624 } else if i == 46 { 0xf40e3585 } else if i == 47 { 0x106aa070 }
    else if i == 48 { 0x19a4c116 } else if i == 49 { 0x1e376c08 } else if i == 50 { 0x2748774c }
    else if i == 51 { 0x34b0bcb5 } else if i == 52 { 0x391c0cb3 } else if i == 53 { 0x4ed8aa4a }
    else if i == 54 { 0x5b9cca4f } else if i == 55 { 0x682e6ff3 } else if i == 56 { 0x748f82ee }
    else if i == 57 { 0x78a5636f } else if i == 58 { 0x84c87814 } else if i == 59 { 0x8cc70208 }
    else if i == 60 { 0x90befffa } else if i == 61 { 0xa4506ceb } else if i == 62 { 0xbef9a3f7 }
    else { 0xc67178f2 }
}

/// One round applied to the eight working variables.
pub open spec fn round_step(v: Seq<u32>, ki: u32, wi: u32) -> Seq<u32>
    recommends
        v.len() == 8,
{
    let t1 = v[7].wrapping_add(big_sigma1(v[4])).wrapping_add(ch(v[4], v[5], v[6])).wrapping_add(
        ki,
    ).wrapping_add(wi);
    let t2 = big_sigma0(v[0]).wrapping_add(maj(v[0], v[1], v[2]));
    seq![
        t1.wrapping_add(t2),
        v[0],
        v[1],
        v[2],
        v[3].wrapping_add(t1),
        v[4],
        v[5],
        v[6],
    ]
}

/// The working variables after `i` rounds, starting from state `h`.
pub open spec fn rounds(h: Seq<u32>, block: Seq<u8>, i: int) -> Seq<u32>
    recommends
        h.len() == 8,
        block.len() == 64,
        0 <= i <= 64,
    decreases i,
{
    if i <= 0 {
        h
    } else {
        round_step(rounds(h, block, i - 1), k_spec(i - 1), sched(block, i - 1))
    }
}

/// The compression function: 64 rounds, then the working variables are
/// added back into the incoming state, all with wrapping 32-bit addition.
pub open spec fn compress(h: Seq<u32>, block: Seq<u8>) -> Seq<u32>
    recommends
        h.len() == 8,
        block.len() == 64,
{
    let v = rounds(h, block, 64);
    Seq::new(8, |i: int| h[i].wrapping_add(v[i]))
}

/// The fixed SHA-256 initialization vector.
pub open spec fn iv_spec() -> Seq<u32> {
    seq![
        0x6a09e667u32,
        0xbb67ae85u32,
        0x3c6ef372u32,
        0xa54ff53au32,
        0x510e527fu32,
        0x9b05688cu32,
        0x1f83d9abu32,
        0x5be0cd19u32,
    ]
}

/// Fold the compression function over every complete leading 64-byte block
/// of `data`; a trailing partial block is ignored.
pub open spec fn chain(h: Seq<u32>, data: Seq<u8>) -> Seq<u32>
    recommends
        h.len() == 8,
    decreases data.len(),
{
    if data.len() < 64 {
        h
    } else {
        chain(compress(h, data.take(64)), data.skip(64))
    }
}

/// Number of zero bytes inserted by padding after the 0x80 terminator.
pub open spec fn pad_zero_count(len: nat) -> int {
    (56 - ((len % 64) + 1)) % 64
}

/// Byte `i` of the trailing big-endian 64-bit encoding of the bit length.
pub open spec fn len_byte(len: nat, i: int) -> u8
    recommends
        8 * len <= u64::MAX,
        0 <= i < 8,
{
    ((((8 * len) as u64) >> ((56 - 8 * i) as u64)) & 0xff) as u8
}

/// The message followed by its padding: a 0x80 byte, zeros up to 56 mod 64,
/// and the 64-bit big-endian bit length.
pub open spec fn padded(msg: Seq<u8>) -> Seq<u8>
    recommends
        8 * msg.len() <= u64::MAX,
{
    msg + seq![0x80u8] + Seq::new(pad_zero_count(msg.len()) as nat, |i: int| 0u8) + Seq::new(
        8,
        |i: int| len_byte(msg.len(), i),
    )
}

/// Big-endian byte `j` of a 32-bit word (j = 0 is the most significant).
pub open spec fn word_byte(w: u32, j: int) -> u8
    recommends
        0 <= j < 4,
{
    ((w >> ((24 - 8 * j) as u32)) & 0xff) as u8
}

/// The eight state words rendered big-endian and concatenated.
pub open spec fn words_to_bytes(h: Seq<u32>) -> Seq<u8>
    recommends
        h.len() == 8,
{
    Seq::new(32, |i: int| word_byte(h[i / 4], i % 4))
}

/// The SHA-256 digest of an arbitrary byte sequence.
pub open spec fn sha256_spec(msg: Seq<u8>) -> Seq<u8>
    recommends
        msg.len() <= MAX_MESSAGE_LEN,
{
    words_to_bytes(chain(iv_spec(), padded(msg)))
}

// ---------------------------------------------------------------------------
// Executable engine.
// ---------------------------------------------------------------------------

/// Rotate a 32-bit word right by `r` bits.
fn rotr(n: u32, r: u32) -> (res: u32)
    requires
        0 < r < 32,
    ensures
        res == rotr_spec(n, r),
{
    (n >> r) | (n << (32 - r))
}

/// Processing a prefix of complete blocks and then the rest is the same as
/// processing the whole stream.
proof fn lemma_chain_append(h: Seq<u32>, a: Seq<u8>, b: Seq<u8>)
    requires
        a.len() % 64 == 0,
    ensures
        chain(h, a + b) == chain(chain(h, a), b),
    decreases a.len(),
{
    if a.len() == 0 {
        assert(a + b =~= b);
    } else {
        assert(a.len() >= 64);
        assert((a + b).take(64) =~= a.take(64));
        assert((a + b).skip(64) =~= a.skip(64) + b);
        assert(a.skip(64).len() % 64 == 0) by {
            assert(a.skip(64).len() == a.len() - 64);
            assert((a.len() - 64) % 64 == a.len() % 64) by (nonlinear_arith)
                requires a.len() >= 64;
        };
        lemma_chain_append(compress(h, a.take(64)), a.skip(64), b);
    }
}

/// How a stream is chunked across appends cannot matter: feeding `x` and
/// then `y` leaves the same stream behind the engine as feeding their
/// concatenation, so the digest of `x + y` is what an engine returns
/// after appending `x` and `y` in turn.
pub proof fn lemma_append_chunking(fed: Seq<u8>, x: Seq<u8>, y: Seq<u8>)
    ensures
        (fed + x) + y == fed + (x + y),
{
    assert((fed + x) + y =~= fed + (x + y));
}

/// The SHA-256 round constant for round `i`.
fn k_at(i: usize) -> (res: u32)
    requires
        i < 64,
    ensures
        res == k_spec(i as int),
{
    match i {
        0 => 0x428a2f98, 1 => 0x71374491, 2 => 0xb5c0fbcf, 3 => 0xe9b5dba5,
        4 => 0x3956c25b, 5 => 0x59f111f1, 6 => 0x923f82a4, 7 => 0xab1c5ed5,
        8 => 0xd807aa98, 9 => 0x12835b01, 10 => 0x243185be, 11 => 0x550c7dc3,
        12 => 0x72be5d74, 13 => 0x80deb1fe, 14 => 0x9bdc06a7, 15 => 0xc19bf174,
        16 => 0xe49b69c1, 17 => 0xefbe4786, 18 => 0x0fc19dc6, 19 => 0x240ca1cc,
        20 => 0x2de92c6f, 21 => 0x4a7484aa, 22 => 0x5cb0a9dc, 23 => 0x76f988da,
        24 => 0x983e5152, 25 => 0xa831c66d, 26 => 0xb00327c8, 27 => 0xbf597fc7,
        28 => 0xc6e00bf3, 29 => 0xd5a79147, 30 => 0x06ca6351, 31 => 0x14292967,
        32 => 0x27b70a85, 33 => 0x2e1b2138, 34 => 0x4d2c6dfc, 35 => 0x53380d13,
        36 => 0x650a7354, 37 => 0x766a0abb, 38 => 0x81c2c92e, 39 => 0x92722c85,
        40 => 0xa2bfe8a1, 41 => 0xa81a664b, 42 => 0xc24b8b70, 43 => 0xc76c51a3,
        44 => 0xd192e819, 45 => 0xd6990624, 46 => 0xf40e3585, 47 => 0x106aa070,
        48 => 0x19a4c116, 49 => 0x1e376c08, 50 => 0x2748774c, 51 => 0x34b0bcb5,
        52 => 0x391c0cb3, 53 => 0x4ed8aa4a, 54 => 0x5b9cca4f, 55 => 0x682e6ff3,
        56 => 0x748f82ee, 57 => 0x78a5636f, 58 => 0x84c87814, 59 => 0x8cc70208,
        60 => 0x90befffa, 61 => 0xa4506ceb, 62 => 0xbef9a3f7, _ => 0xc67178f2,
    }
}

/// The incremental SHA-256 engine.
///
/// Its view is the sequence of all bytes appended so far; `finalize`
/// returns the SHA-256 digest of that sequence.
pub struct Sha256Riscv {
    /// The running eight-word hash state over all complete blocks fed in.
    state: [u32; 8],
    /// Bytes of the trailing partial block, fewer than 64 between calls.
    buffer: Vec<u8>,
    /// Total number of bytes consumed.
    total_len: u64,
    /// The whole byte stream fed in so far.
    fed: Ghost<Seq<u8>>,
}

impl View for Sha256Riscv {
    type V = Seq<u8>;

    closed spec fn view(&self) -> Seq<u8> {
        self.fed@
    }
}

impl Sha256Riscv {
    /// The engine's internal invariant: the word state is the chain over
    /// the stream fed so far, and the buffer holds its partial tail block.
    pub closed spec fn wf(self) -> bool {
        &&& self.state@ == chain(iv_spec(), self.fed@)
        &&& self.buffer@ == self.fed@.skip(self.fed@.len() - (self.fed@.len() % 64))
        &&& self.buffer@.len() == self.fed@.len() % 64
        &&& self.total_len == self.fed@.len()
        &&& self.fed@.len() <= MAX_MESSAGE_LEN
    }

    /// A fresh engine: the fixed initialization vector, nothing buffered,
    /// nothing consumed.
    pub fn new() -> (engine: Self)
        ensures
            engine.wf(),
            engine@ == Seq::<u8>::empty(),
    {
        let mut state: [u32; 8] = [0u32; 8];
        state[0] = 0x6a09e667;
        state[1] = 0xbb67ae85;
        state[2] = 0x3c6ef372;
        state[3] = 0xa54ff53a;
        state[4] = 0x510e527f;
        state[5] = 0x9b05688c;
        state[6] = 0x1f83d9ab;
        state[7] = 0x5be0cd19;
        proof {
            assert(state@ =~= iv_spec());
        }
        let engine = Sha256Riscv {
            state,
            buffer: Vec::new(),
            total_len: 0,
            fed: Ghost(Seq::empty()),
        };
        proof {
            assert(engine.fed@.skip(0) =~= Seq::<u8>::empty());
        }
        engine
    }

    /// Run the compression round function on one 64-byte block, mutating
    /// only the eight-word state.
    fn process_chunk(&mut self, chunk: &Vec<u8>)
        requires
            chunk@.len() == 64,
        ensures
            final(self).state@ == compress(old(self).state@, chunk@),
            final(self).buffer == old(self).buffer,
            final(self).total_len == old(self).total_len,
            final(self).fed == old(self).fed,
    {
        let ghost h0 = self.state@;
        let mut w: [u32; 64] = [0u32; 64];
        let mut i: usize = 0;
        while i < 16
            invariant
                i <= 16,
                chunk@.len() == 64,
                forall|j: int| 0 <= j < i ==> w@[j] == sched(chunk@, j),
            decreases 16 - i,
        {
            w[i] = ((chunk[4 * i] as u32) << 24u32) | ((chunk[4 * i + 1] as u32) << 16u32)
                | ((chunk[4 * i + 2] as u32) << 8u32) | (chunk[4 * i + 3] as u32);
            proof {
                assert(w@[i as int] == be_word(chunk@, i as int));
            }
            i = i + 1;
        }
        while i < 64
            invariant
                16 <= i <= 64,
                chunk@.len() == 64,
                forall|j: int| 0 <= j < i ==> w@[j] == sched(chunk@, j),
            decreases 64 - i,
        {
            let s0 = rotr(w[i - 15], 7) ^ rotr(w[i - 15], 18) ^ (w[i - 15] >> 3u32);
            let s1 = rotr(w[i - 2], 17) ^ rotr(w[i - 2], 19) ^ (w[i - 2] >> 10u32);
            w[i] = w[i - 16].wrapping_add(s0).wrapping_add(w[i - 7]).wrapping_add(s1);
            proof {
                assert(w@[i as int] == sched(chunk@, i as int));
            }
            i = i + 1;
        }
        let mut a: u32 = self.state[0];
        let mut b: u32 = self.state[1];
        let mut c: u32 = self.state[2];
        let mut d: u32 = self.state[3];
        let mut e: u32 = self.state[4];
        let mut f: u32 = self.state[5];
        let mut g: u32 = self.state[6];
        let mut h: u32 = self.state[7];
        let mut i: usize = 0;
        while i < 64
            invariant
                i <= 64,
                chunk@.len() == 64,
                forall|j: int| 0 <= j < 64 ==> w@[j] == sched(chunk@, j),
                a == rounds(h0, chunk@, i as int)[0],
                b == rounds(h0, chunk@, i as int)[1],
                c == rounds(h0, chunk@, i as int)[2],
                d == rounds(h0, chunk@, i as int)[3],
                e == rounds(h0, chunk@, i as int)[4],
                f == rounds(h0, chunk@, i as int)[5],
                g == rounds(h0, chunk@, i as int)[6],
                h == rounds(h0, chunk@, i as int)[7],
            decreases 64 - i,
        {
            let s1 = rotr(e, 6) ^ rotr(e, 11) ^ rotr(e, 25);
            let chv = (e & f) ^ ((!e) & g);
            let temp1 = h.wrapping_add(s1).wrapping_add(chv).wrapping_add(k_at(i)).wrapping_add(
                w[i],
            );
            let s0 = rotr(a, 2) ^ rotr(a, 13) ^ rotr(a, 22);
            let majv = (a & b) ^ (a & c) ^ (b & c);
            let temp2 = s0.wrapping_add(majv);
            h = g;
            g = f;
            f = e;
            e = d.wrapping_add(temp1);
            d = c;
            c = b;
            b = a;
            a = temp1.wrapping_add(temp2);
            proof {
                assert(rounds(h0, chunk@, i + 1) == round_step(
                    rounds(h0, chunk@, i as int),
                    k_spec(i as int),
                    sched(chunk@, i as int),
                ));
            }
            i = i + 1;
        }
        self.state[0] = self.state[0].wrapping_add(a);
        self.state[1] = self.state[1].wrapping_add(b);
        self.state[2] = self.state[2].wrapping_add(c);
        self.state[3] = self.state[3].wrapping_add(d);
        self.state[4] = self.state[4].wrapping_add(e);
        self.state[5] = self.state[5].wrapping_add(f);
        self.state[6] = self.state[6].wrapping_add(g);
        self.state[7] = self.state[7].wrapping_add(h);
        proof {
            assert(self.state@ =~= compress(h0, chunk@));
        }
    }

    /// Append `data` to the stream being hashed, compressing each complete
    /// 64-byte block as it becomes available.
    pub fn update(&mut self, data: &[u8])
        requires
            old(self).wf(),
            old(self)@.len() + data@.len() <= MAX_MESSAGE_LEN,
        ensures
            final(self).wf(),
            final(self)@ == old(self)@ + data@,
    {
        let ghost orig = self.fed@;
        let mut j: usize = 0;
        while j < data.len()
            invariant
                self.wf(),
                j <= data@.len(),
                self.fed@ == orig + data@.take(j as int),
                orig.len() + data@.len() <= MAX_MESSAGE_LEN,
            decreases data@.len() - j,
        {
            let ghost pre = self.fed@;
            let byte = data[j];
            self.buffer.push(byte);
            self.total_len = self.total_len + 1;
            self.fed = Ghost(self.fed@.push(byte));
            proof {
                let r = pre.len() % 64;
                let p = pre.take(pre.len() - r);
                assert(p.len() % 64 == 0) by {
                    vstd::arithmetic::div_mod::lemma_fundamental_div_mod(pre.len() as int, 64);
                    assert(p.len() == 64 * (pre.len() as int / 64));
                    vstd::arithmetic::div_mod::lemma_mod_multiples_basic(
                        pre.len() as int / 64,
                        64,
                    );
                };
                assert(pre =~= p + pre.skip(pre.len() - r));
                lemma_chain_append(iv_spec(), p, pre.skip(pre.len() - r));
                assert(chain(iv_spec(), p) == self.state@);
                vstd::arithmetic::div_mod::lemma_add_mod_noop(pre.len() as int, 1, 64);
                assert(self.fed@.len() == pre.len() + 1);
                if r + 1 < 64 {
                    assert(self.fed@.len() % 64 == r + 1);
                    assert(self.buffer@ =~= self.fed@.skip(
                        self.fed@.len() - (self.fed@.len() % 64),
                    ));
                    assert(self.fed@ =~= p + self.buffer@);
                    lemma_chain_append(iv_spec(), p, self.buffer@);
                    assert(chain(iv_spec(), self.fed@) == self.state@);
                    assert(self.wf());
                }
            }
            if self.buffer.len() == 64 {
                let ghost pre1 = self.fed@;
                let mut chunk: Vec<u8> = Vec::new();
                let mut t: usize = 0;
                while t < 64
                    invariant
                        t <= 64,
                        self.buffer@.len() == 64,
                        chunk@ == self.buffer@.take(t as int),
                    decreases 64 - t,
                {
                    chunk.push(self.buffer[t]);
                    proof {
                        assert(chunk@ =~= self.buffer@.take(t + 1));
                    }
                    t = t + 1;
                }
                proof {
                    assert(chunk@ =~= self.buffer@);
                }
                self.buffer.clear();
                self.process_chunk(&chunk);
                proof {
                    let r = pre.len() % 64;
                    let p = pre.take(pre.len() - r);
                    assert(r == 63);
                    assert(pre1 =~= p + chunk@);
                    lemma_chain_append(iv_spec(), p, chunk@);
                    assert(chain(chain(iv_spec(), p), chunk@) == chain(
                        compress(chain(iv_spec(), p), chunk@.take(64)),
                        chunk@.skip(64),
                    ));
                    assert(chunk@.take(64) =~= chunk@);
                    assert(chunk@.skip(64) =~= Seq::<u8>::empty());
                    assert(self.state@ == chain(iv_spec(), pre1));
                    assert(pre1.len() % 64 == 0);
                    assert(self.buffer@ =~= pre1.skip(pre1.len() - (pre1.len() % 64)));
                    assert(self.wf());
                }
            }
            proof {
                assert(self.fed@ =~= orig + data@.take(j + 1));
            }
            j = j + 1;
        }
        proof {
            assert(data@.take(data@.len() as int) =~= data@);
        }
    }

    /// Apply the standard padding, compress the remaining blocks, and
    /// return the digest; the engine is consumed.
    pub fn finalize(self) -> (digest: [u8; 32])
        requires
            self.wf(),
        ensures
            digest@ == sha256_spec(self@),
    {
        let mut this = self;
        let ghost msg = this.fed@;
        let ghost r: int = (msg.len() % 64) as int;
        let ghost p = msg.take(msg.len() - r);
        let ghost z: int = pad_zero_count(msg.len());
        let bit_len: u64 = this.total_len * 8;
        this.buffer.push(0x80);
        let ghost mut n: int = 0;
        proof {
            assert(0 <= z < 64);
            assert((r + 1 + z) % 64 == 56) by {
                vstd::arithmetic::div_mod::lemma_add_mod_noop(r + 1, (56 - (r + 1)) % 64, 64);
                vstd::arithmetic::div_mod::lemma_mod_twice(56 - (r + 1), 64);
                vstd::arithmetic::div_mod::lemma_add_mod_noop(r + 1, 56 - (r + 1), 64);
            };
        }
        while this.buffer.len() % 64 != 56
            invariant
                0 <= n <= z < 64,
                r == msg.len() % 64,
                z == pad_zero_count(msg.len()),
                this.buffer@.len() == r + 1 + n,
                this.buffer@ == msg.skip(msg.len() - r) + seq![0x80u8] + Seq::new(
                    n as nat,
                    |i: int| 0u8,
                ),
                (r + 1 + z) % 64 == 56,
                this.state@ == chain(iv_spec(), msg),
            decreases z - n,
        {
            proof {
                assert(n < z) by {
                    if n == z {
                        assert(this.buffer@.len() % 64 == 56);
                    }
                };
            }
            this.buffer.push(0);
            proof {
                n = n + 1;
                assert(this.buffer@ =~= msg.skip(msg.len() - r) + seq![0x80u8] + Seq::new(
                    n as nat,
                    |i: int| 0u8,
                ));
            }
        }
        proof {
            assert(n == z) by {
                if n < z {
                    assert((r + 1 + n) % 64 == 56);
                    assert((r + 1 + n) < 128);
                    assert((r + 1 + z) % 64 == 56);
                }
            };
        }
        let mut i: usize = 0;
        while i < 8
            invariant
                i <= 8,
                bit_len == 8 * msg.len(),
                this.buffer@ == msg.skip(msg.len() - r) + seq![0x80u8] + Seq::new(
                    z as nat,
                    |t: int| 0u8,
                ) + Seq::new(i as nat, |t: int| len_byte(msg.len(), t)),
                r == msg.len() % 64,
                z == pad_zero_count(msg.len()),
                msg.len() <= MAX_MESSAGE_LEN,
                this.state@ == chain(iv_spec(), msg),
            decreases 8 - i,
        {
            let shift: u64 = 56 - 8 * (i as u64);
            this.buffer.push(((bit_len >> shift) & 0xff) as u8);
            proof {
                assert(((bit_len >> shift) & 0xff) as u8 == len_byte(msg.len(), i as int));
                assert(this.buffer@ =~= msg.skip(msg.len() - r) + seq![0x80u8] + Seq::new(
                    z as nat,
                    |t: int| 0u8,
                ) + Seq::new((i + 1) as nat, |t: int| len_byte(msg.len(), t)));
            }
            i = i + 1;
        }
        proof {
            assert(p.len() % 64 == 0) by {
                vstd::arithmetic::div_mod::lemma_fundamental_div_mod(msg.len() as int, 64);
                assert(p.len() == 64 * (msg.len() as int / 64));
                vstd::arithmetic::div_mod::lemma_mod_multiples_basic(msg.len() as int / 64, 64);
            };
            assert(padded(msg) =~= p + this.buffer@);
            lemma_chain_append(iv_spec(), p, this.buffer@);
            assert(msg =~= p + msg.skip(msg.len() - r));
            lemma_chain_append(iv_spec(), p, msg.skip(msg.len() - r));
            assert(msg.skip(msg.len() - r).len() == r < 64);
            assert(chain(chain(iv_spec(), p), msg.skip(msg.len() - r)) == chain(iv_spec(), p));
            assert(chain(iv_spec(), msg) == this.state@);
            assert(chain(iv_spec(), p) == this.state@);
            assert(chain(this.state@, this.buffer@) == chain(iv_spec(), padded(msg)));
        }
        while this.buffer.len() >= 64
            invariant
                chain(this.state@, this.buffer@) == chain(iv_spec(), padded(msg)),
            decreases this.buffer@.len(),
        {
            let ghost buf0 = this.buffer@;
            let mut chunk: Vec<u8> = Vec::new();
            let mut t: usize = 0;
            while t < 64
                invariant
                    t <= 64,
                    this.buffer@ == buf0,
                    buf0.len() >= 64,
                    chunk@ == buf0.take(t as int),
                decreases 64 - t,
            {
                chunk.push(this.buffer[t]);
                proof {
                    assert(chunk@ =~= buf0.take(t + 1));
                }
                t = t + 1;
            }
            let mut rest: Vec<u8> = Vec::new();
            let mut t: usize = 64;
            while t < this.buffer.len()
                invariant
                    64 <= t <= buf0.len(),
                    this.buffer@ == buf0,
                    rest@ == buf0.subrange(64, t as int),
                decreases buf0.len() - t,
            {
                rest.push(this.buffer[t]);
                proof {
                    assert(rest@ =~= buf0.subrange(64, t + 1));
                }
                t = t + 1;
            }
            this.buffer = rest;
            this.process_chunk(&chunk);
            proof {
                assert(chunk@ =~= buf0.take(64));
                assert(this.buffer@ =~= buf0.skip(64));
            }
        }
        proof {
            assert(this.state@ == chain(iv_spec(), padded(msg)));
        }
        let mut digest: [u8; 32] = [0u8; 32];
        let mut i: usize = 0;
        while i < 8
            invariant
                i <= 8,
                this.state@ == chain(iv_spec(), padded(msg)),
                forall|t: int| 0 <= t < 4 * i ==> digest@[t] == word_byte(
                    this.state@[t / 4],
                    t % 4,
                ),
            decreases 8 - i,
        {
            let word = this.state[i];
            digest[4 * i] = ((word >> 24u32) & 0xff) as u8;
            digest[4 * i + 1] = ((word >> 16u32) & 0xff) as u8;
            digest[4 * i + 2] = ((word >> 8u32) & 0xff) as u8;
            digest[4 * i + 3] = ((word >> 0u32) & 0xff) as u8;
            proof {
                let ii = i as int;
                assert((4 * ii) / 4 == ii && (4 * ii) % 4 == 0);
                assert((4 * ii + 1) / 4 == ii && (4 * ii + 1) % 4 == 1);
                assert((4 * ii + 2) / 4 == ii && (4 * ii + 2) % 4 == 2);
                assert((4 * ii + 3) / 4 == ii && (4 * ii + 3) % 4 == 3);
                assert(digest@[4 * i as int] == word_byte(word, 0));
                assert(digest@[4 * i + 1] == word_byte(word, 1));
                assert(digest@[4 * i + 2] == word_byte(word, 2));
                assert(digest@[4 * i + 3] == word_byte(word, 3));
            }
            i = i + 1;
        }
        proof {
            assert(digest@ =~= words_to_bytes(chain(iv_spec(), padded(msg))));
        }
        digest
    }

    /// The SHA-256 digest of `data` in one call: a fresh engine, one
    /// append, one finalize.
    pub fn hash(data: &[u8]) -> (digest: [u8; 32])
        requires
            data@.len() <= MAX_MESSAGE_LEN,
        ensures
            digest@ == sha256_spec(data@),
    {
        let mut hasher = Self::new();
        hasher.update(data);
        proof {
            assert(Seq::<u8>::empty() + data@ =~= data@);
        }
        hasher.finalize()
    }
}

impl Default for Sha256Riscv {
    /// A fresh engine, identical to `new`.
    fn default() -> (engine: Self)
        ensures
            engine.wf(),
            engine@ == Seq::<u8>::empty(),
    {
        Self::new()
    }
}

} // verus!
