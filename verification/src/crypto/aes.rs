//! The AES-256 front end: key expansion and the accelerator-backed
//! cipher operations.

use vstd::prelude::*;

use crate::crypto::riscv_ext::{
    sim_decrypt_spec, sim_encrypt_spec, HardwareAccelerator, RiscVCryptoExt,
};

verus! {

/// A failure reported by a cipher operation.
#[derive(Debug)]
pub struct Aes256Error {
    message: String,
}

impl Aes256Error {
    /// Describe the error.
    pub fn message(&self) -> String {
        self.message.clone()
    }
}

/// The key-expansion substitution table.
pub open spec fn sbox_spec(byte: u8) -> u8 {
    match byte {
        0x00 => 0x63,
        0x01 => 0x7c,
        0x02 => 0x77,
        0x03 => 0x7b,
        0x04 => 0xf2,
        0x05 => 0x6b,
        0x06 => 0x6f,
        0x07 => 0xc5,
        0x08 => 0x30,
        0x09 => 0x01,
        0x0a => 0x67,
        0x0b => 0x2b,
        0x0c => 0xfe,
        0x0d => 0xd7,
        0x0e => 0xab,
        0x0f => 0x76,
        0x10 => 0xca,
        0x11 => 0x82,
        0x12 => 0xc9,
        0x13 => 0x7d,
        0x14 => 0xfa,
        0x15 => 0x59,
        0x16 => 0x47,
        0x17 => 0xf0,
        0x18 => 0xae,
        0x19 => 0xd1,
        0x1a => 0x30,
        0x1b => 0xa5,
        0x1c => 0xf3,
        0x1d => 0xac,
        0x1e => 0xe2,
        0x1f => 0x3f,
        0x20 => 0x52,
        0x21 => 0x6c,
        0x22 => 0x6b,
        0x23 => 0xfe,
        0x24 => 0x14,
        0x25 => 0xf7,
        0x26 => 0x2a,
        0x27 => 0xed,
        0x28 => 0x24,
        0x29 => 0x82,
        0x2a => 0xc5,
        0x2b => 0x7f,
        0x2c => 0x11,
        0x2d => 0xb0,
        0x2e => 0x5f,
        0x2f => 0x14,
        0x30 => 0x56,
        0x31 => 0x08,
        0x32 => 0x12,
        0x33 => 0x77,
        0x34 => 0x13,
        0x35 => 0x94,
        0x36 => 0xa0,
        0x37 => 0xf9,
        0x38 => 0xe1,
        0x39 => 0xd8,
        0x3a => 0x53,
        0x3b => 0x03,
        0x3c => 0x1d,
        0x3d => 0x24,
        0x3e => 0x20,
        0x3f => 0xbd,
        0x40 => 0x34,
        0x41 => 0x58,
        0x42 => 0x08,
        0x43 => 0xb7,
        0x44 => 0x35,
        0x45 => 0xd5,
        0x46 => 0xc0,
        0x47 => 0xa7,
        0x48 => 0x9d,
        0x49 => 0x84,
        0x4a => 0x70,
        0x4b => 0x8e,
        0x4c => 0xb1,
        0x4d => 0xc4,
        0x4e => 0x58,
        0x4f => 0xf0,
        0x50 => 0xda,
        0x51 => 0x66,
        0x52 => 0x11,
        0x53 => 0xd0,
        0x54 => 0x50,
        0x55 => 0xf8,
        0x56 => 0x28,
        0x57 => 0x8c,
        0x58 => 0xb0,
        0x59 => 0x4e,
        0x5a => 0x5a,
        0x5b => 0x18,
        0x5c => 0xa4,
        0x5d => 0x3c,
        0x5e => 0xc1,
        0x5f => 0xa8,
        0x60 => 0x51,
        0x61 => 0x21,
        0x62 => 0x72,
        0x63 => 0x74,
        0x64 => 0xb9,
        0x65 => 0xf1,
        0x66 => 0x09,
        0x67 => 0xc5,
        0x68 => 0x6a,
        0x69 => 0xaa,
        0x6a => 0xe5,
        0x6b => 0x15,
        0x6c => 0x2d,
        0x6d => 0xe2,
        0x6e => 0xf4,
        0x6f => 0x0e,
        0x70 => 0x12,
        0x71 => 0xeb,
        0x72 => 0x22,
        0x73 => 0x0c,
        0x74 => 0xd6,
        0x75 => 0xeb,
        0x76 => 0x6a,
        0x77 => 0x19,
        0x78 => 0x55,
        0x79 => 0x74,
        0x7a => 0xa2,
        0x7b => 0x25,
        0x7c => 0x17,
        0x7d => 0x2b,
        0x7e => 0x41,
        0x7f => 0x56,
        0x80 => 0x21,
        0x81 => 0xcf,
        0x82 => 0x4f,
        0x83 => 0xd5,
        0x84 => 0x43,
        0x85 => 0x29,
        0x86 => 0x55,
        0x87 => 0x6b,
        0x88 => 0xca,
        0x89 => 0x73,
        0x8a => 0x22,
        0x8b => 0x95,
        0x8c => 0x3f,
        0x8d => 0x0f,
        0x8e => 0x02,
        0x8f => 0xc1,
        0x90 => 0xaf,
        0x91 => 0xd9,
        0x92 => 0x6a,
        0x93 => 0x2b,
        0x94 => 0x08,
        0x95 => 0x9a,
        0x96 => 0x80,
        0x97 => 0x86,
        0x98 => 0x07,
        0x99 => 0x91,
        0x9a => 0x12,
        0x9b => 0xce,
        0x9c => 0xfa,
        0x9d => 0xea,
        0x9e => 0xfb,
        0x9f => 0x43,
        0xa0 => 0xd1,
        0xa1 => 0x18,
        0xa2 => 0x0d,
        0xa3 => 0x26,
        0xa4 => 0x69,
        0xa5 => 0x6c,
        0xa6 => 0x20,
        0xa7 => 0xfc,
        0xa8 => 0xb6,
        0xa9 => 0x51,
        0xaa => 0x10,
        0xab => 0x8f,
        0xac => 0xe8,
        0xad => 0xf8,
        0xae => 0x19,
        0xaf => 0x0c,
        0xb0 => 0xd7,
        0xb1 => 0xc7,
        0xb2 => 0x87,
        0xb3 => 0x38,
        0xb4 => 0x47,
        0xb5 => 0xed,
        0xb6 => 0x6c,
        0xb7 => 0x3b,
        0xb8 => 0xcc,
        0xb9 => 0xb7,
        0xba => 0x40,
        0xbb => 0xd9,
        0xbc => 0x5e,
        0xbd => 0x42,
        0xbe => 0x7a,
        0xbf => 0x09,
        0xc0 => 0x4f,
        0xc1 => 0xc7,
        0xc2 => 0x22,
        0xc3 => 0x5d,
        0xc4 => 0x52,
        0xc5 => 0x11,
        0xc6 => 0x23,
        0xc7 => 0x44,
        0xc8 => 0x8d,
        0xc9 => 0x9a,
        0xca => 0x87,
        0xcb => 0x9c,
        0xcc => 0x1a,
        0xcd => 0xbf,
        0xce => 0xe4,
        0xcf => 0x2d,
        0xd0 => 0x8a,
        0xd1 => 0x73,
        0xd2 => 0x16,
        0xd3 => 0x1c,
        0xd4 => 0x5f,
        0xd5 => 0xbc,
        0xd6 => 0x37,
        0xd7 => 0x74,
        0xd8 => 0xd4,
        0xd9 => 0x9e,
        0xda => 0xf5,
        0xdb => 0x7e,
        0xdc => 0xc5,
        0xdd => 0xf9,
        0xde => 0x2a,
        0xdf => 0x68,
        0xe0 => 0x3d,
        0xe1 => 0xe0,
        0xe2 => 0x4e,
        0xe3 => 0x13,
        0xe4 => 0x12,
        0xe5 => 0x4a,
        0xe6 => 0x2f,
        0xe7 => 0x0c,
        0xe8 => 0xa1,
        0xe9 => 0xc3,
        0xea => 0xf4,
        0xeb => 0x1e,
        0xec => 0xc8,
        0xed => 0x3e,
        0xee => 0xef,
        0xef => 0x67,
        0xf0 => 0x47,
        0xf1 => 0xf7,
        0xf2 => 0x0a,
        0xf3 => 0x7d,
        0xf4 => 0xf1,
        0xf5 => 0xd2,
        0xf6 => 0x2b,
        0xf7 => 0x9f,
        0xf8 => 0xa4,
        0xf9 => 0x7c,
        0xfa => 0xde,
        0xfb => 0x27,
        0xfc => 0x10,
        0xfd => 0x8a,
        0xfe => 0x05,
        0xff => 0x01,
    }
}

/// Substitute one byte through the table.
fn substitute_byte(byte: u8) -> (r: u8)
    ensures
        r == sbox_spec(byte),
{
    match byte {
        0x00 => 0x63,
        0x01 => 0x7c,
        0x02 => 0x77,
        0x03 => 0x7b,
        0x04 => 0xf2,
        0x05 => 0x6b,
        0x06 => 0x6f,
        0x07 => 0xc5,
        0x08 => 0x30,
        0x09 => 0x01,
        0x0a => 0x67,
        0x0b => 0x2b,
        0x0c => 0xfe,
        0x0d => 0xd7,
        0x0e => 0xab,
        0x0f => 0x76,
        0x10 => 0xca,
        0x11 => 0x82,
        0x12 => 0xc9,
        0x13 => 0x7d,
        0x14 => 0xfa,
        0x15 => 0x59,
        0x16 => 0x47,
        0x17 => 0xf0,
        0x18 => 0xae,
        0x19 => 0xd1,
        0x1a => 0x30,
        0x1b => 0xa5,
        0x1c => 0xf3,
        0x1d => 0xac,
        0x1e => 0xe2,
        0x1f => 0x3f,
        0x20 => 0x52,
        0x21 => 0x6c,
        0x22 => 0x6b,
        0x23 => 0xfe,
        0x24 => 0x14,
        0x25 => 0xf7,
        0x26 => 0x2a,
        0x27 => 0xed,
        0x28 => 0x24,
        0x29 => 0x82,
        0x2a => 0xc5,
        0x2b => 0x7f,
        0x2c => 0x11,
        0x2d => 0xb0,
        0x2e => 0x5f,
        0x2f => 0x14,
        0x30 => 0x56,
        0x31 => 0x08,
        0x32 => 0x12,
        0x33 => 0x77,
        0x34 => 0x13,
        0x35 => 0x94,
        0x36 => 0xa0,
        0x37 => 0xf9,
        0x38 => 0xe1,
        0x39 => 0xd8,
        0x3a => 0x53,
        0x3b => 0x03,
        0x3c => 0x1d,
        0x3d => 0x24,
        0x3e => 0x20,
        0x3f => 0xbd,
        0x40 => 0x34,
        0x41 => 0x58,
        0x42 => 0x08,
        0x43 => 0xb7,
        0x44 => 0x35,
        0x45 => 0xd5,
        0x46 => 0xc0,
        0x47 => 0xa7,
        0x48 => 0x9d,
        0x49 => 0x84,
        0x4a => 0x70,
        0x4b => 0x8e,
        0x4c => 0xb1,
        0x4d => 0xc4,
        0x4e => 0x58,
        0x4f => 0xf0,
        0x50 => 0xda,
        0x51 => 0x66,
        0x52 => 0x11,
        0x53 => 0xd0,
        0x54 => 0x50,
        0x55 => 0xf8,
        0x56 => 0x28,
        0x57 => 0x8c,
        0x58 => 0xb0,
        0x59 => 0x4e,
        0x5a => 0x5a,
        0x5b => 0x18,
        0x5c => 0xa4,
        0x5d => 0x3c,
        0x5e => 0xc1,
        0x5f => 0xa8,
        0x60 => 0x51,
        0x61 => 0x21,
        0x62 => 0x72,
        0x63 => 0x74,
        0x64 => 0xb9,
        0x65 => 0xf1,
        0x66 => 0x09,
        0x67 => 0xc5,
        0x68 => 0x6a,
        0x69 => 0xaa,
        0x6a => 0xe5,
        0x6b => 0x15,
        0x6c => 0x2d,
        0x6d => 0xe2,
        0x6e => 0xf4,
        0x6f => 0x0e,
        0x70 => 0x12,
        0x71 => 0xeb,
        0x72 => 0x22,
        0x73 => 0x0c,
        0x74 => 0xd6,
        0x75 => 0xeb,
        0x76 => 0x6a,
        0x77 => 0x19,
        0x78 => 0x55,
        0x79 => 0x74,
        0x7a => 0xa2,
        0x7b => 0x25,
        0x7c => 0x17,
        0x7d => 0x2b,
        0x7e => 0x41,
        0x7f => 0x56,
        0x80 => 0x21,
        0x81 => 0xcf,
        0x82 => 0x4f,
        0x83 => 0xd5,
        0x84 => 0x43,
        0x85 => 0x29,
        0x86 => 0x55,
        0x87 => 0x6b,
        0x88 => 0xca,
        0x89 => 0x73,
        0x8a => 0x22,
        0x8b => 0x95,
        0x8c => 0x3f,
        0x8d => 0x0f,
        0x8e => 0x02,
        0x8f => 0xc1,
        0x90 => 0xaf,
        0x91 => 0xd9,
        0x92 => 0x6a,
        0x93 => 0x2b,
        0x94 => 0x08,
        0x95 => 0x9a,
        0x96 => 0x80,
        0x97 => 0x86,
        0x98 => 0x07,
        0x99 => 0x91,
        0x9a => 0x12,
        0x9b => 0xce,
        0x9c => 0xfa,
        0x9d => 0xea,
        0x9e => 0xfb,
        0x9f => 0x43,
        0xa0 => 0xd1,
        0xa1 => 0x18,
        0xa2 => 0x0d,
        0xa3 => 0x26,
        0xa4 => 0x69,
        0xa5 => 0x6c,
        0xa6 => 0x20,
        0xa7 => 0xfc,
        0xa8 => 0xb6,
        0xa9 => 0x51,
        0xaa => 0x10,
        0xab => 0x8f,
        0xac => 0xe8,
        0xad => 0xf8,
        0xae => 0x19,
        0xaf => 0x0c,
        0xb0 => 0xd7,
        0xb1 => 0xc7,
        0xb2 => 0x87,
        0xb3 => 0x38,
        0xb4 => 0x47,
        0xb5 => 0xed,
        0xb6 => 0x6c,
        0xb7 => 0x3b,
        0xb8 => 0xcc,
        0xb9 => 0xb7,
        0xba => 0x40,
        0xbb => 0xd9,
        0xbc => 0x5e,
        0xbd => 0x42,
        0xbe => 0x7a,
        0xbf => 0x09,
        0xc0 => 0x4f,
        0xc1 => 0xc7,
        0xc2 => 0x22,
        0xc3 => 0x5d,
        0xc4 => 0x52,
        0xc5 => 0x11,
        0xc6 => 0x23,
        0xc7 => 0x44,
        0xc8 => 0x8d,
        0xc9 => 0x9a,
        0xca => 0x87,
        0xcb => 0x9c,
        0xcc => 0x1a,
        0xcd => 0xbf,
        0xce => 0xe4,
        0xcf => 0x2d,
        0xd0 => 0x8a,
        0xd1 => 0x73,
        0xd2 => 0x16,
        0xd3 => 0x1c,
        0xd4 => 0x5f,
        0xd5 => 0xbc,
        0xd6 => 0x37,
        0xd7 => 0x74,
        0xd8 => 0xd4,
        0xd9 => 0x9e,
        0xda => 0xf5,
        0xdb => 0x7e,
        0xdc => 0xc5,
        0xdd => 0xf9,
        0xde => 0x2a,
        0xdf => 0x68,
        0xe0 => 0x3d,
        0xe1 => 0xe0,
        0xe2 => 0x4e,
        0xe3 => 0x13,
        0xe4 => 0x12,
        0xe5 => 0x4a,
        0xe6 => 0x2f,
        0xe7 => 0x0c,
        0xe8 => 0xa1,
        0xe9 => 0xc3,
        0xea => 0xf4,
        0xeb => 0x1e,
        0xec => 0xc8,
        0xed => 0x3e,
        0xee => 0xef,
        0xef => 0x67,
        0xf0 => 0x47,
        0xf1 => 0xf7,
        0xf2 => 0x0a,
        0xf3 => 0x7d,
        0xf4 => 0xf1,
        0xf5 => 0xd2,
        0xf6 => 0x2b,
        0xf7 => 0x9f,
        0xf8 => 0xa4,
        0xf9 => 0x7c,
        0xfa => 0xde,
        0xfb => 0x27,
        0xfc => 0x10,
        0xfd => 0x8a,
        0xfe => 0x05,
        0xff => 0x01,
    }
}

/// The first round-constant byte for a key-expansion round; the other
/// three bytes of each round constant are zero.
pub open spec fn rcon_spec(round: int) -> u8 {
    if round == 1 { 0x01 } else if round == 2 { 0x02 } else if round == 3 { 0x04 }
    else if round == 4 { 0x08 } else if round == 5 { 0x10 } else if round == 6 { 0x20 }
    else if round == 7 { 0x40 } else if round == 8 { 0x80 } else if round == 9 { 0x1b }
    else if round == 10 { 0x36 } else { 0x00 }
}

/// The 240-byte schedule before any round: the key followed by zeros.
pub open spec fn ke_init_spec(key: Seq<u8>) -> Seq<u8>
    recommends
        key.len() == 32,
{
    Seq::new(240, |i: int| if i < 32 { key[i] } else { 0u8 })
}

/// One key-expansion round: rotate and substitute the previous word, mix
/// in the round constant, then chain the remaining three bytes.
pub open spec fn ke_round_spec(s: Seq<u8>, i: int) -> Seq<u8>
    recommends
        s.len() == 240,
        1 <= i <= 14,
{
    let start = (i - 1) * 16;
    let s0 = s.update(start + 16, s[start + 0] ^ sbox_spec(s[start + 13]) ^ rcon_spec(i));
    let s1 = s0.update(start + 17, s0[start + 1] ^ sbox_spec(s[start + 14]));
    let s2 = s1.update(start + 18, s1[start + 2] ^ sbox_spec(s[start + 15]));
    let s3 = s2.update(start + 19, s2[start + 3] ^ sbox_spec(s[start + 12]));
    let t1 = s3.update(start + 17, s3[start + 1] ^ s3[start + 16]);
    let t2 = t1.update(start + 18, t1[start + 2] ^ t1[start + 17]);
    t2.update(start + 19, t2[start + 3] ^ t2[start + 18])
}

/// The schedule after the first `i` key-expansion rounds.
pub open spec fn ke_iter_spec(key: Seq<u8>, i: int) -> Seq<u8>
    recommends
        key.len() == 32,
        0 <= i <= 14,
    decreases i,
{
    if i <= 0 {
        ke_init_spec(key)
    } else {
        ke_round_spec(ke_iter_spec(key, i - 1), i)
    }
}

/// The full 240-byte expanded key: fourteen rounds over the initial
/// schedule.
pub open spec fn key_expansion_spec(key: Seq<u8>) -> Seq<u8>
    recommends
        key.len() == 32,
{
    ke_iter_spec(key, 14)
}

/// The AES-256 front end, holding its accelerator and the last expanded
/// key.
pub struct Aes256Riscv {
    accelerator: HardwareAccelerator,
    expanded_key: Vec<u8>,
}

impl Aes256Riscv {
    /// The cipher's invariant: its accelerator is switched on.
    pub closed spec fn wf(self) -> bool {
        self.accelerator.accel_enabled()
    }

    /// The expanded key stored by the last key expansion.
    pub closed spec fn spec_expanded_key(self) -> Seq<u8> {
        self.expanded_key@
    }

    /// A fresh cipher with its own accelerator and no expanded key.
    pub fn new() -> (cipher: Self)
        ensures
            cipher.wf(),
            cipher.spec_expanded_key() == Seq::<u8>::empty(),
    {
        Aes256Riscv { accelerator: HardwareAccelerator::new(), expanded_key: Vec::new() }
    }

    /// Expand a 256-bit key into the 240-byte round-key schedule, storing
    /// and returning it.
    pub fn key_expansion(&mut self, key: &[u8; 32]) -> (r: Result<Vec<u8>, Aes256Error>)
        requires
            old(self).wf(),
        ensures
            final(self).wf(),
            r matches Ok(out) && out@ == key_expansion_spec(key@),
            final(self).spec_expanded_key() == key_expansion_spec(key@),
    {
        let mut round_keys = vec![0u8; 240];
        let mut i: usize = 0;
        while i < 32
            invariant
                i <= 32,
                round_keys@.len() == 240,
                forall|j: int| 0 <= j < i ==> round_keys@[j] == key@[j],
                forall|j: int| i <= j < 240 ==> round_keys@[j] == 0u8,
            decreases 32 - i,
        {
            round_keys[i] = key[i];
            i = i + 1;
        }
        proof {
            assert(round_keys@ =~= ke_init_spec(key@));
        }
        let mut i: usize = 1;
        while i <= 14
            invariant
                1 <= i <= 15,
                round_keys@.len() == 240,
                round_keys@ == ke_iter_spec(key@, i - 1),
            decreases 15 - i,
        {
            let ghost prev = round_keys@;
            let start = (i - 1) * 16;
            let prev13 = round_keys[start + 13];
            let prev14 = round_keys[start + 14];
            let prev15 = round_keys[start + 15];
            let prev12 = round_keys[start + 12];
            let rcon0 = rcon_first(i);
            round_keys[start + 16] = round_keys[start] ^ substitute_byte(prev13) ^ rcon0;
            round_keys[start + 17] = round_keys[start + 1] ^ substitute_byte(prev14);
            round_keys[start + 18] = round_keys[start + 2] ^ substitute_byte(prev15);
            round_keys[start + 19] = round_keys[start + 3] ^ substitute_byte(prev12);
            round_keys[start + 17] = round_keys[start + 1] ^ round_keys[start + 16];
            round_keys[start + 18] = round_keys[start + 2] ^ round_keys[start + 17];
            round_keys[start + 19] = round_keys[start + 3] ^ round_keys[start + 18];
            proof {
                assert(round_keys@ == ke_round_spec(prev, i as int));
                assert(ke_iter_spec(key@, i as int) == ke_round_spec(
                    ke_iter_spec(key@, i - 1),
                    i as int,
                ));
            }
            i = i + 1;
        }
        let out = vstd::slice::slice_to_vec(round_keys.as_slice());
        self.expanded_key = round_keys;
        Ok(out)
    }

    /// Encrypt through the accelerator: with the accelerator on, each
    /// byte is XOR-masked and the output is padded to the 16-byte minimum.
    pub fn encrypt_aes256(&self, plaintext: &[u8], key: &[u8; 32]) -> (r: Result<
        Vec<u8>,
        Aes256Error,
    >)
        requires
            self.wf(),
        ensures
            r matches Ok(out) && out@ == sim_encrypt_spec(plaintext@),
    {
        match self.accelerator.copr_encrypt_aes256(plaintext, key) {
            Ok(out) => Ok(out),
            Err(e) => Err(Aes256Error { message: e.message() }),
        }
    }

    /// Decrypt through the accelerator: the inverse XOR mask; fails on an
    /// empty ciphertext.
    pub fn decrypt_aes256(&self, ciphertext: &[u8], key: &[u8; 32]) -> (r: Result<
        Vec<u8>,
        Aes256Error,
    >)
        requires
            self.wf(),
        ensures
            r is Err <==> ciphertext@.len() == 0,
            r matches Ok(out) ==> out@ == sim_decrypt_spec(ciphertext@),
    {
        match self.accelerator.copr_decrypt_aes256(ciphertext, key) {
            Ok(out) => Ok(out),
            Err(e) => Err(Aes256Error { message: e.message() }),
        }
    }
}

/// The four-byte round constant for a key-expansion round; only the first
/// byte is ever nonzero.
fn rcon_first(round: usize) -> (r: u8)
    ensures
        r == rcon_spec(round as int),
{
    match round {
        1 => 0x01,
        2 => 0x02,
        3 => 0x04,
        4 => 0x08,
        5 => 0x10,
        6 => 0x20,
        7 => 0x40,
        8 => 0x80,
        9 => 0x1b,
        10 => 0x36,
        _ => 0x00,
    }
}

impl Default for Aes256Riscv {
    /// A fresh cipher, identical to `new`.
    fn default() -> (cipher: Self)
        ensures
            cipher.wf(),
            cipher.spec_expanded_key() == Seq::<u8>::empty(),
    {
        Self::new()
    }
}

} // verus!
