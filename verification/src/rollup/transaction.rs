//! Transfer transactions: the canonical signing message, signing and
//! verification against a sender key, and a builder for assembling them.

use vstd::prelude::*;

use crate::crypto::ec::Ed25519Riscv;
use crate::crypto::riscv_ext::{sim_sign_spec, sim_verify_spec, RiscVCryptoError};

verus! {

/// The four bytes of a 32-bit value in little-endian order.
pub open spec fn u32_le_spec(x: u32) -> Seq<u8> {
    seq![
        (x & 0xff) as u8,
        ((x >> 8u32) & 0xff) as u8,
        ((x >> 16u32) & 0xff) as u8,
        ((x >> 24u32) & 0xff) as u8,
    ]
}

/// The eight bytes of a 64-bit value in little-endian order.
pub open spec fn u64_le_spec(x: u64) -> Seq<u8> {
    seq![
        (x & 0xff) as u8,
        ((x >> 8u64) & 0xff) as u8,
        ((x >> 16u64) & 0xff) as u8,
        ((x >> 24u64) & 0xff) as u8,
        ((x >> 32u64) & 0xff) as u8,
        ((x >> 40u64) & 0xff) as u8,
        ((x >> 48u64) & 0xff) as u8,
        ((x >> 56u64) & 0xff) as u8,
    ]
}

/// A transfer of `amount` from one account to another, authorized by the
/// sender's signature over the canonical message.
#[derive(Debug, Clone)]
pub struct TransferTx {
    pub from: u32,
    pub to: u32,
    pub amount: u64,
    pub nonce: u32,
    pub signature: Vec<u8>,
}

/// The canonical 20-byte signing message of a transfer: the fixed-width
/// little-endian concatenation of sender, recipient, amount and nonce.
pub open spec fn message_spec(tx: TransferTx) -> Seq<u8> {
    u32_le_spec(tx.from) + u32_le_spec(tx.to) + u64_le_spec(tx.amount) + u32_le_spec(tx.nonce)
}

/// Whether a transfer's signature (truncated to 64 bytes) passes the
/// verifier's check against the transfer's canonical message.
pub open spec fn signature_valid_spec(tx: TransferTx) -> bool {
    tx.signature@.len() >= 64 && sim_verify_spec(message_spec(tx), tx.signature@.take(64))
}

impl TransferTx {
    /// The signature as a fixed 64-byte array, when it has exactly that
    /// length.
    pub fn signature_bytes(&self) -> (r: Option<[u8; 64]>)
        ensures
            r is Some <==> self.signature@.len() == 64,
            r matches Some(sig) ==> sig@ == self.signature@,
    {
        if self.signature.len() != 64 {
            return None;
        }
        let mut sig: [u8; 64] = [0u8; 64];
        let mut i: usize = 0;
        while i < 64
            invariant
                i <= 64,
                self.signature@.len() == 64,
                forall|j: int| 0 <= j < i ==> sig@[j] == self.signature@[j],
            decreases 64 - i,
        {
            sig[i] = self.signature[i];
            i = i + 1;
        }
        proof {
            assert(sig@ =~= self.signature@);
        }
        Some(sig)
    }

    /// The canonical 20-byte message this transfer is signed over.
    pub fn to_message(&self) -> (message: [u8; 20])
        ensures
            message@ == message_spec(*self),
    {
        let mut message: [u8; 20] = [0u8; 20];
        message[0] = (self.from & 0xff) as u8;
        message[1] = ((self.from >> 8u32) & 0xff) as u8;
        message[2] = ((self.from >> 16u32) & 0xff) as u8;
        message[3] = ((self.from >> 24u32) & 0xff) as u8;
        message[4] = (self.to & 0xff) as u8;
        message[5] = ((self.to >> 8u32) & 0xff) as u8;
        message[6] = ((self.to >> 16u32) & 0xff) as u8;
        message[7] = ((self.to >> 24u32) & 0xff) as u8;
        message[8] = (self.amount & 0xff) as u8;
        message[9] = ((self.amount >> 8u64) & 0xff) as u8;
        message[10] = ((self.amount >> 16u64) & 0xff) as u8;
        message[11] = ((self.amount >> 24u64) & 0xff) as u8;
        message[12] = ((self.amount >> 32u64) & 0xff) as u8;
        message[13] = ((self.amount >> 40u64) & 0xff) as u8;
        message[14] = ((self.amount >> 48u64) & 0xff) as u8;
        message[15] = ((self.amount >> 56u64) & 0xff) as u8;
        message[16] = (self.nonce & 0xff) as u8;
        message[17] = ((self.nonce >> 8u32) & 0xff) as u8;
        message[18] = ((self.nonce >> 16u32) & 0xff) as u8;
        message[19] = ((self.nonce >> 24u32) & 0xff) as u8;
        proof {
            assert(message@ =~= message_spec(*self));
        }
        message
    }

    /// Sign the transfer with a secret key, filling in its signature.
    pub fn sign(&mut self, secret: &[u8; 32]) -> (r: Result<(), RiscVCryptoError>)
        ensures
            r is Ok,
            final(self).signature@ == sim_sign_spec(secret@, message_spec(*old(self))),
            final(self).from == old(self).from,
            final(self).to == old(self).to,
            final(self).amount == old(self).amount,
            final(self).nonce == old(self).nonce,
    {
        let message = self.to_message();
        let ed25519 = Ed25519Riscv::new();
        let signature = match ed25519.sign(secret, message.as_slice()) {
            Ok(signature) => signature,
            Err(e) => {
                return Err(e);
            },
        };
        self.signature = vstd::slice::slice_to_vec(signature.as_slice());
        Ok(())
    }

    /// Verify the transfer's signature against a sender public key; errs
    /// when the stored signature is shorter than 64 bytes.
    pub fn verify_signature(&self, public_key: &[u8; 32]) -> (r: Result<bool, RiscVCryptoError>)
        ensures
            r matches Ok(valid) ==> self.signature@.len() >= 64 && valid == signature_valid_spec(
                *self,
            ),
            r is Err ==> self.signature@.len() < 64,
    {
        let message = self.to_message();
        if self.signature.len() < 64 {
            return Err(RiscVCryptoError::new("Invalid signature length".to_string()));
        }
        let mut sig_array: [u8; 64] = [0u8; 64];
        let mut i: usize = 0;
        while i < 64
            invariant
                i <= 64,
                self.signature@.len() >= 64,
                forall|j: int| 0 <= j < i ==> sig_array@[j] == self.signature@[j],
            decreases 64 - i,
        {
            sig_array[i] = self.signature[i];
            i = i + 1;
        }
        proof {
            assert(sig_array@ =~= self.signature@.take(64));
        }
        let ed25519 = Ed25519Riscv::new();
        ed25519.verify(public_key, message.as_slice(), &sig_array)
    }
}

/// The transaction kinds the rollup accepts; only transfers for now.
#[derive(Debug, Clone)]
pub enum Transaction {
    /// A signed transfer between two accounts.
    Transfer(TransferTx),
}

impl Transaction {
    /// The sender account of the transaction, when it has one.
    pub fn get_sender(&self) -> (r: Option<u32>)
        ensures
            match self {
                Transaction::Transfer(tx) => r == Some(tx.from),
            },
    {
        match self {
            Transaction::Transfer(tx) => Some(tx.from),
        }
    }

    /// The transaction's sequence number.
    pub fn get_nonce(&self) -> (r: u32)
        ensures
            match self {
                Transaction::Transfer(tx) => r == tx.nonce,
            },
    {
        match self {
            Transaction::Transfer(tx) => tx.nonce,
        }
    }
}

/// Why a transaction could not be built: a required field was never set.
#[derive(Debug, PartialEq, Eq, Structural)]
pub enum TxBuildError {
    MissingFrom,
    MissingTo,
    MissingAmount,
}

/// A fluent builder for transfers: sender, recipient and amount are
/// required, the nonce defaults to zero.
#[derive(Debug)]
pub struct TransactionBuilder {
    from: Option<u32>,
    to: Option<u32>,
    amount: Option<u64>,
    nonce: Option<u32>,
}

impl TransactionBuilder {
    /// The sender set so far.
    pub closed spec fn spec_from(self) -> Option<u32> {
        self.from
    }

    /// The recipient set so far.
    pub closed spec fn spec_to(self) -> Option<u32> {
        self.to
    }

    /// The amount set so far.
    pub closed spec fn spec_amount(self) -> Option<u64> {
        self.amount
    }

    /// The nonce set so far.
    pub closed spec fn spec_nonce(self) -> Option<u32> {
        self.nonce
    }

    /// An empty builder with no field set.
    pub fn new() -> (builder: Self)
        ensures
            builder.spec_from() is None,
            builder.spec_to() is None,
            builder.spec_amount() is None,
            builder.spec_nonce() is None,
    {
        TransactionBuilder { from: None, to: None, amount: None, nonce: None }
    }

    /// Set the sender account.
    pub fn from(self, id: u32) -> (builder: Self)
        ensures
            builder.spec_from() == Some(id),
            builder.spec_to() == self.spec_to(),
            builder.spec_amount() == self.spec_amount(),
            builder.spec_nonce() == self.spec_nonce(),
    {
        let mut builder = self;
        builder.from = Some(id);
        builder
    }

    /// Set the recipient account.
    pub fn to(self, id: u32) -> (builder: Self)
        ensures
            builder.spec_from() == self.spec_from(),
            builder.spec_to() == Some(id),
            builder.spec_amount() == self.spec_amount(),
            builder.spec_nonce() == self.spec_nonce(),
    {
        let mut builder = self;
        builder.to = Some(id);
        builder
    }

    /// Set the transfer amount.
    pub fn amount(self, amount: u64) -> (builder: Self)
        ensures
            builder.spec_from() == self.spec_from(),
            builder.spec_to() == self.spec_to(),
            builder.spec_amount() == Some(amount),
            builder.spec_nonce() == self.spec_nonce(),
    {
        let mut builder = self;
        builder.amount = Some(amount);
        builder
    }

    /// Set the transaction nonce.
    pub fn nonce(self, nonce: u32) -> (builder: Self)
        ensures
            builder.spec_from() == self.spec_from(),
            builder.spec_to() == self.spec_to(),
            builder.spec_amount() == self.spec_amount(),
            builder.spec_nonce() == Some(nonce),
    {
        let mut builder = self;
        builder.nonce = Some(nonce);
        builder
    }

    /// Assemble the transaction: fails naming the first missing required
    /// field; the signature starts as 64 zero bytes, to be filled by
    /// signing.
    pub fn build(self) -> (r: Result<Transaction, TxBuildError>)
        ensures
            r is Err <==> (self.spec_from() is None || self.spec_to() is None
                || self.spec_amount() is None),
            r == Err::<Transaction, TxBuildError>(TxBuildError::MissingFrom) <==> self.spec_from()
                is None,
            r == Err::<Transaction, TxBuildError>(TxBuildError::MissingTo) <==> (self.spec_from()
                is Some && self.spec_to() is None),
            r == Err::<Transaction, TxBuildError>(TxBuildError::MissingAmount) <==> (
            self.spec_from() is Some && self.spec_to() is Some && self.spec_amount() is None),
            r matches Ok(t) ==> (match t {
                Transaction::Transfer(tx) => {
                    &&& Some(tx.from) == self.spec_from()
                    &&& Some(tx.to) == self.spec_to()
                    &&& Some(tx.amount) == self.spec_amount()
                    &&& tx.nonce == (if self.spec_nonce() is Some {
                        self.spec_nonce()->0
                    } else {
                        0u32
                    })
                    &&& tx.signature@ == Seq::new(64, |i: int| 0u8)
                },
            }),
    {
        let from = match self.from {
            Some(id) => id,
            None => {
                return Err(TxBuildError::MissingFrom);
            },
        };
        let to = match self.to {
            Some(id) => id,
            None => {
                return Err(TxBuildError::MissingTo);
            },
        };
        let amount = match self.amount {
            Some(amount) => amount,
            None => {
                return Err(TxBuildError::MissingAmount);
            },
        };
        let nonce = match self.nonce {
            Some(nonce) => nonce,
            None => 0,
        };
        let signature = vec![0u8; 64];
        proof {
            assert(signature@ =~= Seq::new(64, |i: int| 0u8));
        }
        let tx = TransferTx { from, to, amount, nonce, signature };
        Ok(Transaction::Transfer(tx))
    }
}

impl Default for TransactionBuilder {
    /// An empty builder, identical to `new`.
    fn default() -> (builder: Self)
        ensures
            builder.spec_from() is None,
            builder.spec_to() is None,
            builder.spec_amount() is None,
            builder.spec_nonce() is None,
    {
        Self::new()
    }
}

} // verus!
