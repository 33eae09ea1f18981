//! The rollup ledger: accounts with balances and nonces, signed transfer
//! application, and the committed state-root digest.
//!
//! Accounts are held densely: the account with id `i` sits at index `i`,
//! ids are assigned sequentially starting at zero and never reused, and no
//! two accounts share a public key.

use vstd::prelude::*;

use crate::crypto::sha256::{sha256_spec, Sha256Riscv};
use crate::rollup::transaction::{signature_valid_spec, u32_le_spec, u64_le_spec, TransferTx};

verus! {

/// The balance of an account: its eth amount and its named-token amounts.
#[derive(Debug, Clone)]
pub struct Balance {
    pub eth: u64,
    pub tokens: Vec<(String, u64)>,
}

/// The failure kinds a ledger operation can report.
#[derive(Debug, Clone, Copy, PartialEq, Eq, Structural)]
pub enum StateErrorKind {
    DuplicateAccount,
    AccountNotFound,
    InvalidNonce,
    InvalidSignature,
    InsufficientBalance,
}

/// A failure reported by a ledger operation.
#[derive(Debug)]
pub struct StateError {
    pub kind: StateErrorKind,
}

impl StateError {
    /// Describe the error.
    pub fn message(&self) -> String {
        match self.kind {
            StateErrorKind::DuplicateAccount => "Account already exists".to_string(),
            StateErrorKind::AccountNotFound => "Account not found".to_string(),
            StateErrorKind::InvalidNonce => "Invalid nonce".to_string(),
            StateErrorKind::InvalidSignature => "Invalid signature".to_string(),
            StateErrorKind::InsufficientBalance => "Insufficient balance".to_string(),
        }
    }
}

impl Balance {
    /// An empty balance: no eth, no tokens.
    pub fn new() -> (balance: Self)
        ensures
            balance.eth == 0,
            balance.tokens@ == Seq::<(String, u64)>::empty(),
    {
        Balance { eth: 0, tokens: Vec::new() }
    }

    /// Add eth to the balance; the sum wraps modulo 2^64.
    pub fn add_eth(&mut self, amount: u64)
        ensures
            final(self).eth == old(self).eth.wrapping_add(amount),
            final(self).tokens == old(self).tokens,
    {
        self.eth = self.eth.wrapping_add(amount);
    }

    /// Remove eth from the balance; fails without changing anything when
    /// the balance is too small.
    pub fn sub_eth(&mut self, amount: u64) -> (r: Result<(), StateError>)
        ensures
            old(self).eth >= amount ==> r is Ok && final(self).eth == old(self).eth - amount,
            old(self).eth < amount ==> (r matches Err(e) && e.kind
                == StateErrorKind::InsufficientBalance && final(self).eth == old(self).eth),
            final(self).tokens == old(self).tokens,
    {
        if self.eth < amount {
            return Err(StateError { kind: StateErrorKind::InsufficientBalance });
        }
        self.eth = self.eth - amount;
        Ok(())
    }
}

/// A ledger account: its id, signer identity, replay-protection nonce and
/// balance.
#[derive(Debug, Clone)]
pub struct Account {
    /// The unique identifier the ledger assigned to this account.
    pub id: u32,
    /// The account's public key, its signer identity.
    pub public_key: Vec<u8>,
    /// The strictly increasing transaction counter, starting at zero.
    pub nonce: u32,
    /// The account's assets.
    pub balance: Balance,
}

/// Whether some account in `s` holds the public key `key`.
pub open spec fn has_key_spec(s: Seq<Account>, key: Seq<u8>) -> bool {
    exists|i: int| 0 <= i < s.len() && #[trigger] s[i].public_key@ == key
}

/// The error, if any, that applying `tx` to the accounts `s` reports,
/// following the checks in their specified order: sender existence, nonce
/// equality, signature validity, sufficient balance, recipient existence.
pub open spec fn transfer_outcome(s: Seq<Account>, tx: TransferTx) -> Option<StateErrorKind> {
    if tx.from >= s.len() {
        Some(StateErrorKind::AccountNotFound)
    } else if s[tx.from as int].nonce != tx.nonce {
        Some(StateErrorKind::InvalidNonce)
    } else if s[tx.from as int].public_key@.len() < 32 {
        Some(StateErrorKind::InvalidSignature)
    } else if !signature_valid_spec(tx) {
        Some(StateErrorKind::InvalidSignature)
    } else if s[tx.from as int].balance.eth < tx.amount {
        Some(StateErrorKind::InsufficientBalance)
    } else if tx.to >= s.len() {
        Some(StateErrorKind::AccountNotFound)
    } else {
        None
    }
}

/// Whether applying `tx` to `s` reaches the point where the sender is
/// debited and its nonce bumped: every check before the recipient lookup
/// passes.
pub open spec fn transfer_debits_sender(s: Seq<Account>, tx: TransferTx) -> bool {
    &&& tx.from < s.len()
    &&& s[tx.from as int].nonce == tx.nonce
    &&& s[tx.from as int].public_key@.len() >= 32
    &&& signature_valid_spec(tx)
    &&& s[tx.from as int].balance.eth >= tx.amount
}

/// The sender account after the debit and nonce bump.
pub open spec fn debited_sender(s: Seq<Account>, tx: TransferTx) -> Account
    recommends
        transfer_debits_sender(s, tx),
        tx.nonce < u32::MAX,
{
    let sender = s[tx.from as int];
    (Account {
        id: sender.id,
        public_key: sender.public_key,
        nonce: (sender.nonce + 1) as u32,
        balance: (Balance {
            eth: (sender.balance.eth - tx.amount) as u64,
            tokens: sender.balance.tokens,
        }),
    })
}

/// The accounts after applying `tx` to `s`: unchanged when a check before
/// the debit fails; sender debited and nonce-bumped but the amount lost
/// when the recipient is missing (the specified non-atomic order); sender
/// debited and recipient credited otherwise.
pub open spec fn transfer_effect(s: Seq<Account>, tx: TransferTx) -> Seq<Account>
    recommends
        tx.nonce < u32::MAX,
{
    if !transfer_debits_sender(s, tx) {
        s
    } else {
        let s1 = s.update(tx.from as int, debited_sender(s, tx));
        if tx.to < s.len() {
            let recipient = s1[tx.to as int];
            s1.update(
                tx.to as int,
                (Account {
                    id: recipient.id,
                    public_key: recipient.public_key,
                    nonce: recipient.nonce,
                    balance: (Balance {
                        eth: recipient.balance.eth.wrapping_add(tx.amount),
                        tokens: recipient.balance.tokens,
                    }),
                }),
            )
        } else {
            s1
        }
    }
}

/// The 32-byte leaf committed for slot `i`: the account's id and the low
/// four bytes of its eth balance, both little-endian, zero padded; an
/// all-zero leaf when the slot is empty.
pub open spec fn account_leaf_spec(s: Seq<Account>, i: int) -> Seq<u8> {
    if 0 <= i < s.len() {
        u32_le_spec(s[i].id) + u64_le_spec(s[i].balance.eth).take(4) + Seq::new(24, |j: int| 0u8)
    } else {
        Seq::new(32, |j: int| 0u8)
    }
}

/// The committed state root: exactly four leaves (accounts with id less
/// than four, zero padded), two plain pairwise hashes, and one plain hash
/// of their concatenation.
pub open spec fn state_root_spec(s: Seq<Account>) -> Seq<u8> {
    sha256_spec(
        sha256_spec(account_leaf_spec(s, 0) + account_leaf_spec(s, 1)) + sha256_spec(
            account_leaf_spec(s, 2) + account_leaf_spec(s, 3),
        ),
    )
}

/// A created account is visible under its assigned id: when registration
/// succeeds on a well-formed ledger, the account stored at the new id is
/// the submitted account carrying that id.
pub proof fn lemma_create_then_get(pre: Seq<Account>, post: Seq<Account>, account: Account, id: u32)
    requires
        id == pre.len(),
        post == pre.push(
            (Account {
                id,
                public_key: account.public_key,
                nonce: account.nonce,
                balance: account.balance,
            }),
        ),
    ensures
        id < post.len(),
        post[id as int].id == id,
        post[id as int].public_key == account.public_key,
        post[id as int].nonce == account.nonce,
        post[id as int].balance == account.balance,
{
}

/// A successful transfer between two distinct accounts moves exactly the
/// amount: the sender loses it and gains one nonce step, the recipient
/// gains it, and every other account is untouched.
pub proof fn lemma_transfer_success_effect(s: Seq<Account>, tx: TransferTx)
    requires
        tx.nonce < u32::MAX,
        transfer_outcome(s, tx) is None,
        tx.from != tx.to,
        s[tx.to as int].balance.eth + tx.amount <= u64::MAX,
    ensures
        transfer_effect(s, tx).len() == s.len(),
        transfer_effect(s, tx)[tx.from as int].balance.eth == s[tx.from as int].balance.eth
            - tx.amount,
        transfer_effect(s, tx)[tx.from as int].nonce == s[tx.from as int].nonce + 1,
        transfer_effect(s, tx)[tx.to as int].balance.eth == s[tx.to as int].balance.eth
            + tx.amount,
        forall|i: int|
            0 <= i < s.len() && i != tx.from && i != tx.to ==> transfer_effect(s, tx)[i] == s[i],
{
}

/// A transfer rejected for a bad signature changes nothing: the check
/// comes before any balance or nonce mutation.
pub proof fn lemma_invalid_signature_preserves(s: Seq<Account>, tx: TransferTx)
    requires
        tx.nonce < u32::MAX,
        transfer_outcome(s, tx) == Some(StateErrorKind::InvalidSignature),
    ensures
        transfer_effect(s, tx) == s,
{
}

/// A transfer rejected for an insufficient balance changes nothing: the
/// debit fails before any mutation.
pub proof fn lemma_insufficient_balance_preserves(s: Seq<Account>, tx: TransferTx)
    requires
        tx.nonce < u32::MAX,
        transfer_outcome(s, tx) == Some(StateErrorKind::InsufficientBalance),
    ensures
        transfer_effect(s, tx) == s,
{
}

/// A transfer rejected for a stale or future nonce changes nothing.
pub proof fn lemma_invalid_nonce_preserves(s: Seq<Account>, tx: TransferTx)
    requires
        tx.nonce < u32::MAX,
        transfer_outcome(s, tx) == Some(StateErrorKind::InvalidNonce),
    ensures
        transfer_effect(s, tx) == s,
{
}

/// Compare two byte strings.
fn bytes_eq(a: &[u8], b: &[u8]) -> (r: bool)
    ensures
        r == (a@ == b@),
{
    if a.len() != b.len() {
        proof {
            assert(a@ != b@);
        }
        return false;
    }
    let mut i: usize = 0;
    while i < a.len()
        invariant
            i <= a@.len(),
            a@.len() == b@.len(),
            forall|j: int| 0 <= j < i ==> a@[j] == b@[j],
        decreases a@.len() - i,
    {
        if a[i] != b[i] {
            proof {
                assert(a@[i as int] != b@[i as int]);
            }
            return false;
        }
        i = i + 1;
    }
    proof {
        assert(a@ =~= b@);
    }
    true
}

/// The ledger's global state.
#[derive(Debug)]
pub struct RollupState {
    /// The accounts, account `i` at index `i`.
    accounts: Vec<Account>,
    /// The id the next created account receives.
    next_account_id: u32,
}

impl RollupState {
    /// The ledger's accounts, in id order.
    pub closed spec fn spec_accounts(self) -> Seq<Account> {
        self.accounts@
    }

    /// The id the next created account receives.
    pub closed spec fn spec_next_id(self) -> u32 {
        self.next_account_id
    }

    /// The ledger's invariant: the id counter equals the account count,
    /// account `i` carries id `i`, and public keys are unique.
    pub open spec fn wf(self) -> bool {
        &&& self.spec_next_id() == self.spec_accounts().len()
        &&& forall|i: int|
            0 <= i < self.spec_accounts().len() ==> (#[trigger] self.spec_accounts()[i].id) == i
        &&& forall|i: int, j: int|
            0 <= i < j < self.spec_accounts().len()
                ==> (#[trigger] self.spec_accounts()[i].public_key@) != (
            #[trigger] self.spec_accounts()[j].public_key@)
    }

    /// An empty ledger.
    pub fn new() -> (state: Self)
        ensures
            state.wf(),
            state.spec_accounts() == Seq::<Account>::empty(),
    {
        RollupState { accounts: Vec::new(), next_account_id: 0 }
    }

    /// Register a new account: it receives the next sequential id; fails
    /// with `DuplicateAccount`, changing nothing, when the public key is
    /// already registered.
    pub fn create_account(&mut self, account: Account) -> (r: Result<u32, StateError>)
        requires
            old(self).wf(),
            old(self).spec_accounts().len() < u32::MAX,
        ensures
            final(self).wf(),
            has_key_spec(old(self).spec_accounts(), account.public_key@) ==> (r matches Err(e)
                && e.kind == StateErrorKind::DuplicateAccount && final(self).spec_accounts() == old(
                self,
            ).spec_accounts()),
            !has_key_spec(old(self).spec_accounts(), account.public_key@) ==> (r matches Ok(id)
                && id == old(self).spec_accounts().len() && final(self).spec_accounts() == old(
                self,
            ).spec_accounts().push(
                (Account {
                    id: (old(self).spec_accounts().len() as u32),
                    public_key: account.public_key,
                    nonce: account.nonce,
                    balance: account.balance,
                }),
            )),
    {
        let ghost s0 = self.accounts@;
        let mut i: usize = 0;
        while i < self.accounts.len()
            invariant
                i <= s0.len(),
                old(self).wf(),
                *self == *old(self),
                self.accounts@ == s0,
                forall|j: int| 0 <= j < i ==> (#[trigger] s0[j].public_key@) != account.public_key@,
            decreases s0.len() - i,
        {
            if bytes_eq(self.accounts[i].public_key.as_slice(), account.public_key.as_slice()) {
                proof {
                    assert(has_key_spec(s0, account.public_key@));
                }
                return Err(StateError { kind: StateErrorKind::DuplicateAccount });
            }
            i = i + 1;
        }
        proof {
            assert(!has_key_spec(s0, account.public_key@));
        }
        let id = self.next_account_id;
        let stored = Account {
            id,
            public_key: account.public_key,
            nonce: account.nonce,
            balance: account.balance,
        };
        self.accounts.push(stored);
        self.next_account_id = self.next_account_id + 1;
        proof {
            assert(forall|j: int|
                0 <= j < s0.len() ==> self.spec_accounts()[j] == s0[j]);
            assert(self.wf());
        }
        Ok(id)
    }

    /// Look an account up by id.
    pub fn get_account(&self, id: u32) -> (r: Option<&Account>)
        ensures
            id < self.spec_accounts().len() ==> (r matches Some(account) && *account
                == self.spec_accounts()[id as int]),
            id >= self.spec_accounts().len() ==> r is None,
    {
        if (id as usize) < self.accounts.len() {
            Some(&self.accounts[id as usize])
        } else {
            None
        }
    }

    /// Look an account up by public key.
    pub fn get_account_by_key(&self, key: &[u8]) -> (r: Option<&Account>)
        ensures
            r is Some <==> has_key_spec(self.spec_accounts(), key@),
            r matches Some(account) ==> account.public_key@ == key@ && exists|i: int|
                0 <= i < self.spec_accounts().len() && self.spec_accounts()[i] == *account,
    {
        let mut i: usize = 0;
        while i < self.accounts.len()
            invariant
                i <= self.spec_accounts().len(),
                forall|j: int|
                    0 <= j < i ==> (#[trigger] self.spec_accounts()[j].public_key@) != key@,
            decreases self.spec_accounts().len() - i,
        {
            if bytes_eq(self.accounts[i].public_key.as_slice(), key) {
                return Some(&self.accounts[i]);
            }
            i = i + 1;
        }
        proof {
            assert(!has_key_spec(self.spec_accounts(), key@));
        }
        None
    }

    /// Credit an account's eth balance (the sum wraps modulo 2^64); fails
    /// with `AccountNotFound`, changing nothing, when the id is unknown.
    pub fn update_balance(&mut self, id: u32, amount: u64) -> (r: Result<(), StateError>)
        requires
            old(self).wf(),
        ensures
            final(self).wf(),
            id < old(self).spec_accounts().len() ==> r is Ok && final(self).spec_accounts() == old(
                self,
            ).spec_accounts().update(
                id as int,
                (Account {
                    id: old(self).spec_accounts()[id as int].id,
                    public_key: old(self).spec_accounts()[id as int].public_key,
                    nonce: old(self).spec_accounts()[id as int].nonce,
                    balance: (Balance {
                        eth: old(self).spec_accounts()[id as int].balance.eth.wrapping_add(amount),
                        tokens: old(self).spec_accounts()[id as int].balance.tokens,
                    }),
                }),
            ),
            id >= old(self).spec_accounts().len() ==> (r matches Err(e) && e.kind
                == StateErrorKind::AccountNotFound && final(self).spec_accounts() == old(
                self,
            ).spec_accounts()),
    {
        if (id as usize) >= self.accounts.len() {
            return Err(StateError { kind: StateErrorKind::AccountNotFound });
        }
        let account = &mut self.accounts[id as usize];
        account.balance.add_eth(amount);
        proof {
            assert(final(self).wf());
        }
        Ok(())
    }

    /// Apply a signed transfer in the specified order: sender lookup,
    /// nonce check, signature check, debit, nonce bump, recipient lookup,
    /// credit. A missing recipient is detected only after the sender has
    /// been debited; the ledger keeps that partial state and reports the
    /// error.
    pub fn apply_transfer(&mut self, tx: &TransferTx) -> (r: Result<(), StateError>)
        requires
            old(self).wf(),
            tx.nonce < u32::MAX,
        ensures
            final(self).wf(),
            final(self).spec_accounts() == transfer_effect(old(self).spec_accounts(), *tx),
            r is Ok <==> transfer_outcome(old(self).spec_accounts(), *tx) is None,
            r matches Err(e) ==> Some(e.kind) == transfer_outcome(old(self).spec_accounts(), *tx),
    {
        let ghost s0 = self.accounts@;
        let from_idx = tx.from as usize;
        if from_idx >= self.accounts.len() {
            return Err(StateError { kind: StateErrorKind::AccountNotFound });
        }
        if self.accounts[from_idx].nonce != tx.nonce {
            return Err(StateError { kind: StateErrorKind::InvalidNonce });
        }
        if self.accounts[from_idx].public_key.len() < 32 {
            return Err(StateError { kind: StateErrorKind::InvalidSignature });
        }
        let mut public_key: [u8; 32] = [0u8; 32];
        let mut i: usize = 0;
        while i < 32
            invariant
                i <= 32,
                *self == *old(self),
                self.accounts@ == s0,
                from_idx == tx.from as usize,
                tx.from < s0.len(),
                s0[tx.from as int].public_key@.len() >= 32,
            decreases 32 - i,
        {
            public_key[i] = self.accounts[from_idx].public_key[i];
            i = i + 1;
        }
        let valid = match tx.verify_signature(&public_key) {
            Ok(valid) => valid,
            Err(_) => {
                return Err(StateError { kind: StateErrorKind::InvalidSignature });
            },
        };
        if !valid {
            return Err(StateError { kind: StateErrorKind::InvalidSignature });
        }
        let from_account = &mut self.accounts[from_idx];
        match from_account.balance.sub_eth(tx.amount) {
            Ok(()) => {},
            Err(e) => {
                proof {
                    assert(self.accounts@ =~= s0);
                }
                return Err(e);
            },
        }
        let from_account = &mut self.accounts[from_idx];
        from_account.nonce = from_account.nonce + 1;
        proof {
            assert(self.accounts@ =~= s0.update(tx.from as int, debited_sender(s0, *tx)));
        }
        let to_idx = tx.to as usize;
        if to_idx >= self.accounts.len() {
            proof {
                assert(self.wf());
            }
            return Err(StateError { kind: StateErrorKind::AccountNotFound });
        }
        let to_account = &mut self.accounts[to_idx];
        to_account.balance.add_eth(tx.amount);
        proof {
            let s1 = s0.update(tx.from as int, debited_sender(s0, *tx));
            let recipient = s1[tx.to as int];
            assert(self.accounts@ =~= s1.update(
                tx.to as int,
                (Account {
                    id: recipient.id,
                    public_key: recipient.public_key,
                    nonce: recipient.nonce,
                    balance: (Balance {
                        eth: recipient.balance.eth.wrapping_add(tx.amount),
                        tokens: recipient.balance.tokens,
                    }),
                }),
            ));
            assert(self.wf());
        }
        Ok(())
    }

    /// The committed state root over the first four account slots: two
    /// plain pairwise hashes of the four encoded leaves, then a plain hash
    /// of their concatenation.
    pub fn get_merkle_root(&self) -> (r: Result<[u8; 32], StateError>)
        requires
            self.wf(),
        ensures
            r matches Ok(root) && root@ == state_root_spec(self.spec_accounts()),
    {
        let left = self.pair_hash(0);
        let right = self.pair_hash(2);
        let mut combined: [u8; 64] = [0u8; 64];
        let mut i: usize = 0;
        while i < 32
            invariant
                i <= 32,
                forall|j: int| 0 <= j < i ==> combined@[j] == left@[j],
                forall|j: int| 32 <= j < 32 + i ==> combined@[j] == right@[j - 32],
            decreases 32 - i,
        {
            combined[i] = left[i];
            combined[32 + i] = right[i];
            i = i + 1;
        }
        proof {
            assert(combined@ =~= left@ + right@);
        }
        Ok(Sha256Riscv::hash(combined.as_slice()))
    }

    /// The plain hash of the two adjacent encoded leaves starting at
    /// `slot`.
    fn pair_hash(&self, slot: u32) -> (digest: [u8; 32])
        requires
            self.wf(),
            slot + 1 <= u32::MAX,
        ensures
            digest@ == sha256_spec(
                account_leaf_spec(self.spec_accounts(), slot as int) + account_leaf_spec(
                    self.spec_accounts(),
                    slot as int + 1,
                ),
            ),
    {
        let first = self.encode_leaf(slot);
        let second = self.encode_leaf(slot + 1);
        let mut combined: [u8; 64] = [0u8; 64];
        let mut i: usize = 0;
        while i < 32
            invariant
                i <= 32,
                forall|j: int| 0 <= j < i ==> combined@[j] == first@[j],
                forall|j: int| 32 <= j < 32 + i ==> combined@[j] == second@[j - 32],
            decreases 32 - i,
        {
            combined[i] = first[i];
            combined[32 + i] = second[i];
            i = i + 1;
        }
        proof {
            assert(combined@ =~= first@ + second@);
        }
        Sha256Riscv::hash(combined.as_slice())
    }

    /// The 32-byte encoded leaf for account slot `slot`.
    fn encode_leaf(&self, slot: u32) -> (leaf: [u8; 32])
        requires
            self.wf(),
        ensures
            leaf@ == account_leaf_spec(self.spec_accounts(), slot as int),
    {
        let mut leaf: [u8; 32] = [0u8; 32];
        proof {
            vstd::array::axiom_spec_array_fill_for_copy_type::<u8, 32>(0u8);
            assert(forall|j: int| 0 <= j < 32 ==> leaf@[j] == 0u8);
        }
        if (slot as usize) < self.accounts.len() {
            let account = &self.accounts[slot as usize];
            let id = account.id;
            let eth = account.balance.eth;
            leaf[0] = (id & 0xff) as u8;
            leaf[1] = ((id >> 8u32) & 0xff) as u8;
            leaf[2] = ((id >> 16u32) & 0xff) as u8;
            leaf[3] = ((id >> 24u32) & 0xff) as u8;
            leaf[4] = (eth & 0xff) as u8;
            leaf[5] = ((eth >> 8u64) & 0xff) as u8;
            leaf[6] = ((eth >> 16u64) & 0xff) as u8;
            leaf[7] = ((eth >> 24u64) & 0xff) as u8;
            proof {
                assert(leaf@ =~= account_leaf_spec(self.spec_accounts(), slot as int));
            }
        } else {
            proof {
                assert(leaf@ =~= account_leaf_spec(self.spec_accounts(), slot as int));
            }
        }
        leaf
    }

    /// The number of accounts in the ledger.
    pub fn get_account_count(&self) -> (count: usize)
        ensures
            count == self.spec_accounts().len(),
    {
        self.accounts.len()
    }
}

impl Default for RollupState {
    /// An empty ledger, identical to `new`.
    fn default() -> (state: Self)
        ensures
            state.wf(),
            state.spec_accounts() == Seq::<Account>::empty(),
    {
        Self::new()
    }
}

} // verus!
