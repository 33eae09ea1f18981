//! Scenario tests for the system's stated properties: published digest
//! vectors, chunking independence, double-hash spot checks, the Merkle
//! reduction shapes, the ledger's invariants, and an end-to-end transfer.

use zk_rollup::crypto::ec::Ed25519Riscv;
use zk_rollup::crypto::hash::{calculate_merkle_root, double_sha256, merkle_branch};
use zk_rollup::crypto::sha256::Sha256Riscv;
use zk_rollup::rollup::state::{Account, Balance, RollupState, StateErrorKind};
use zk_rollup::rollup::transaction::{TransactionBuilder, TransferTx, TxBuildError};
use zk_rollup::rollup::zk_proof::{Proof, PublicInput, VerifyingKey, ZKGroth16};
use zk_rollup::tee::attestation::AttestationReport;
use zk_rollup::tee::enclave::{EnclaveConfig, TeeEnclave};
use zk_rollup::tee::secure_storage::{EncryptedData, SecureStorage};

fn funded_ledger() -> (RollupState, [u8; 32]) {
    let mut state = RollupState::new();
    let ed25519 = Ed25519Riscv::new();
    let (secret_key, public_key) = ed25519.keygen();
    let account_a = Account {
        id: 0,
        public_key: public_key.to_vec(),
        nonce: 0,
        balance: Balance::new(),
    };
    let account_b = Account {
        id: 0,
        public_key: vec![2u8; 32],
        nonce: 0,
        balance: Balance::new(),
    };
    assert_eq!(state.create_account(account_a).unwrap(), 0);
    assert_eq!(state.create_account(account_b).unwrap(), 1);
    state.update_balance(0, 1000).unwrap();
    (state, secret_key)
}

#[test]
fn test_hash_deterministic() {
    let data = b"the same bytes, twice";
    assert_eq!(Sha256Riscv::hash(data), Sha256Riscv::hash(data));
}

#[test]
fn test_hash_known_vector_empty() {
    let expected: [u8; 32] = [
        0xe3, 0xb0, 0xc4, 0x42, 0x98, 0xfc, 0x1c, 0x14, 0x9a, 0xfb, 0xf4, 0xc8, 0x99, 0x6f, 0xb9,
        0x24, 0x27, 0xae, 0x41, 0xe4, 0x64, 0x9b, 0x93, 0x4c, 0xa4, 0x95, 0x99, 0x1b, 0x78, 0x52,
        0xb8, 0x55,
    ];
    assert_eq!(Sha256Riscv::hash(b""), expected);
}

#[test]
fn test_hash_known_vector_abc() {
    let expected: [u8; 32] = [
        0xba, 0x78, 0x16, 0xbf, 0x8f, 0x01, 0xcf, 0xea, 0x41, 0x41, 0x40, 0xde, 0x5d, 0xae, 0x22,
        0x23, 0xb0, 0x03, 0x61, 0xa3, 0x96, 0x17, 0x7a, 0x9c, 0xb4, 0x10, 0xff, 0x61, 0xf2, 0x00,
        0x15, 0xad,
    ];
    assert_eq!(Sha256Riscv::hash(b"abc"), expected);
}

#[test]
fn test_hash_incremental_chunking() {
    let x = b"first piece of a longer message crossing ";
    let y = b"a sixty-four byte block boundary at least once in the stream";
    let mut whole: Vec<u8> = Vec::new();
    whole.extend_from_slice(x);
    whole.extend_from_slice(y);

    let mut engine = Sha256Riscv::new();
    engine.update(x);
    engine.update(y);
    assert_eq!(engine.finalize(), Sha256Riscv::hash(&whole));

    let mut byte_by_byte = Sha256Riscv::new();
    for byte in whole.iter() {
        byte_by_byte.update(&[*byte]);
    }
    assert_eq!(byte_by_byte.finalize(), Sha256Riscv::hash(&whole));
}

#[test]
fn test_hash_multi_block_message() {
    let data = vec![0xa5u8; 200];
    let mut engine = Sha256Riscv::new();
    engine.update(&data[..64]);
    engine.update(&data[64..64]);
    engine.update(&data[64..]);
    assert_eq!(engine.finalize(), Sha256Riscv::hash(&data));
}

#[test]
fn test_double_hash_non_degenerate() {
    let a = [1u8; 32];
    let b = [2u8; 32];
    assert_ne!(double_sha256(&a), a);
    assert_ne!(double_sha256(&b), b);
    assert_ne!(double_sha256(&a), double_sha256(&b));
}

#[test]
fn test_merkle_root_empty_and_single() {
    assert_eq!(calculate_merkle_root(&[]), [0u8; 32]);
    let leaf = [7u8; 32];
    assert_eq!(calculate_merkle_root(&[leaf]), leaf);
}

#[test]
fn test_merkle_root_two_leaves() {
    let l0 = [1u8; 32];
    let l1 = [2u8; 32];
    assert_eq!(calculate_merkle_root(&[l0, l1]), merkle_branch(&l0, &l1));
}

#[test]
fn test_merkle_root_three_leaves_carries_odd() {
    let l0 = [1u8; 32];
    let l1 = [2u8; 32];
    let l2 = [3u8; 32];
    let expected = merkle_branch(&merkle_branch(&l0, &l1), &l2);
    assert_eq!(calculate_merkle_root(&[l0, l1, l2]), expected);
}

#[test]
fn test_merkle_root_four_leaves() {
    let l0 = [1u8; 32];
    let l1 = [2u8; 32];
    let l2 = [3u8; 32];
    let l3 = [4u8; 32];
    let expected = merkle_branch(&merkle_branch(&l0, &l1), &merkle_branch(&l2, &l3));
    assert_eq!(calculate_merkle_root(&[l0, l1, l2, l3]), expected);
}

#[test]
fn test_create_account_duplicate_key() {
    let mut state = RollupState::new();
    let account = Account {
        id: 0,
        public_key: vec![9u8; 32],
        nonce: 0,
        balance: Balance::new(),
    };
    let again = Account {
        id: 0,
        public_key: vec![9u8; 32],
        nonce: 0,
        balance: Balance::new(),
    };
    state.create_account(account).unwrap();
    let err = state.create_account(again).unwrap_err();
    assert_eq!(err.kind, StateErrorKind::DuplicateAccount);
    assert_eq!(state.get_account_count(), 1);
}

#[test]
fn test_update_balance_missing_account() {
    let mut state = RollupState::new();
    let err = state.update_balance(5, 10).unwrap_err();
    assert_eq!(err.kind, StateErrorKind::AccountNotFound);
}

#[test]
fn test_end_to_end_transfer_and_replay() {
    let (mut state, secret_key) = funded_ledger();

    let mut tx = TransferTx {
        from: 0,
        to: 1,
        amount: 100,
        nonce: 0,
        signature: vec![0u8; 64],
    };
    tx.sign(&secret_key).unwrap();
    state.apply_transfer(&tx).unwrap();

    assert_eq!(state.get_account(0).unwrap().balance.eth, 900);
    assert_eq!(state.get_account(1).unwrap().balance.eth, 100);
    assert_eq!(state.get_account(0).unwrap().nonce, 1);

    let replay = state.apply_transfer(&tx).unwrap_err();
    assert_eq!(replay.kind, StateErrorKind::InvalidNonce);
    assert_eq!(state.get_account(0).unwrap().balance.eth, 900);
    assert_eq!(state.get_account(1).unwrap().balance.eth, 100);
}

#[test]
fn test_transfer_tampered_signature() {
    let (mut state, secret_key) = funded_ledger();

    let mut tx = TransferTx {
        from: 0,
        to: 1,
        amount: 100,
        nonce: 0,
        signature: vec![0u8; 64],
    };
    tx.sign(&secret_key).unwrap();
    tx.signature[40] ^= 0xff;

    let err = state.apply_transfer(&tx).unwrap_err();
    assert_eq!(err.kind, StateErrorKind::InvalidSignature);
    assert_eq!(state.get_account(0).unwrap().balance.eth, 1000);
    assert_eq!(state.get_account(0).unwrap().nonce, 0);
    assert_eq!(state.get_account(1).unwrap().balance.eth, 0);
}

#[test]
fn test_transfer_insufficient_balance() {
    let (mut state, secret_key) = funded_ledger();

    let mut tx = TransferTx {
        from: 0,
        to: 1,
        amount: 5000,
        nonce: 0,
        signature: vec![0u8; 64],
    };
    tx.sign(&secret_key).unwrap();

    let err = state.apply_transfer(&tx).unwrap_err();
    assert_eq!(err.kind, StateErrorKind::InsufficientBalance);
    assert_eq!(state.get_account(0).unwrap().balance.eth, 1000);
    assert_eq!(state.get_account(0).unwrap().nonce, 0);
}

#[test]
fn test_transfer_missing_sender() {
    let (mut state, secret_key) = funded_ledger();
    let mut tx = TransferTx {
        from: 7,
        to: 1,
        amount: 1,
        nonce: 0,
        signature: vec![0u8; 64],
    };
    tx.sign(&secret_key).unwrap();
    let err = state.apply_transfer(&tx).unwrap_err();
    assert_eq!(err.kind, StateErrorKind::AccountNotFound);
}

#[test]
fn test_transfer_missing_recipient_keeps_partial_state() {
    let (mut state, secret_key) = funded_ledger();

    let mut tx = TransferTx {
        from: 0,
        to: 9,
        amount: 100,
        nonce: 0,
        signature: vec![0u8; 64],
    };
    tx.sign(&secret_key).unwrap();

    let err = state.apply_transfer(&tx).unwrap_err();
    assert_eq!(err.kind, StateErrorKind::AccountNotFound);
    // The specified non-atomic order: the sender is already debited and
    // nonce-bumped when the missing recipient is discovered.
    assert_eq!(state.get_account(0).unwrap().balance.eth, 900);
    assert_eq!(state.get_account(0).unwrap().nonce, 1);
}

#[test]
fn test_state_root_matches_manual_hashes() {
    let (mut state, _) = funded_ledger();
    state.update_balance(1, 7).unwrap();

    let mut leaves = [[0u8; 32]; 4];
    for id in 0u32..2 {
        let account = state.get_account(id).unwrap();
        let slot = id as usize;
        leaves[slot][..4].copy_from_slice(&id.to_le_bytes());
        let eth_bytes = account.balance.eth.to_le_bytes();
        leaves[slot][4..8].copy_from_slice(&eth_bytes[..4]);
    }
    let mut left = [0u8; 64];
    left[..32].copy_from_slice(&leaves[0]);
    left[32..].copy_from_slice(&leaves[1]);
    let mut right = [0u8; 64];
    right[..32].copy_from_slice(&leaves[2]);
    right[32..].copy_from_slice(&leaves[3]);
    let mut top = [0u8; 64];
    top[..32].copy_from_slice(&Sha256Riscv::hash(&left));
    top[32..].copy_from_slice(&Sha256Riscv::hash(&right));
    let expected = Sha256Riscv::hash(&top);

    assert_eq!(state.get_merkle_root().unwrap(), expected);
}

#[test]
fn test_state_root_ignores_fifth_account() {
    let mut state = RollupState::new();
    for i in 0u8..4 {
        let account = Account {
            id: 0,
            public_key: vec![i; 32],
            nonce: 0,
            balance: Balance::new(),
        };
        state.create_account(account).unwrap();
    }
    let root_four = state.get_merkle_root().unwrap();
    let fifth = Account {
        id: 0,
        public_key: vec![99u8; 32],
        nonce: 0,
        balance: Balance::new(),
    };
    state.create_account(fifth).unwrap();
    state.update_balance(4, 12345).unwrap();
    assert_eq!(state.get_merkle_root().unwrap(), root_four);
}

#[test]
fn test_transaction_builder_missing_fields() {
    assert_eq!(
        TransactionBuilder::new().build().unwrap_err(),
        TxBuildError::MissingFrom
    );
    assert_eq!(
        TransactionBuilder::new().from(1).build().unwrap_err(),
        TxBuildError::MissingTo
    );
    assert_eq!(
        TransactionBuilder::new().from(1).to(2).build().unwrap_err(),
        TxBuildError::MissingAmount
    );
}

#[test]
fn test_to_message_layout() {
    let tx = TransferTx {
        from: 0x01020304,
        to: 0x05060708,
        amount: 0x1112131415161718,
        nonce: 0x21222324,
        signature: vec![],
    };
    let message = tx.to_message();
    assert_eq!(&message[..4], &[0x04, 0x03, 0x02, 0x01]);
    assert_eq!(&message[4..8], &[0x08, 0x07, 0x06, 0x05]);
    assert_eq!(
        &message[8..16],
        &[0x18, 0x17, 0x16, 0x15, 0x14, 0x13, 0x12, 0x11]
    );
    assert_eq!(&message[16..20], &[0x24, 0x23, 0x22, 0x21]);
}

#[test]
fn test_signature_bytes_requires_full_length() {
    let mut tx = TransferTx {
        from: 0,
        to: 1,
        amount: 1,
        nonce: 0,
        signature: vec![0u8; 63],
    };
    assert!(tx.signature_bytes().is_none());
    tx.signature = vec![5u8; 64];
    let bytes = tx.signature_bytes().unwrap();
    assert_eq!(bytes, [5u8; 64]);
}

#[test]
fn test_verify_signature_rejects_short_signature() {
    let tx = TransferTx {
        from: 0,
        to: 1,
        amount: 1,
        nonce: 0,
        signature: vec![0u8; 10],
    };
    assert!(tx.verify_signature(&[0u8; 32]).is_err());
}

#[test]
fn test_zk_verify_error_cases() {
    let mut groth16 = ZKGroth16::new();
    let vk = groth16.setup();
    let witness = vec![1u8; 32];
    let input = PublicInput::from_witness(&witness);

    let empty_proof = Proof::new();
    assert!(groth16.verify(&vk, &empty_proof, &input).is_err());

    let proof = groth16.generate_proof(&witness).unwrap();
    let mut big_input = PublicInput::from_witness(&witness);
    big_input.values = vec![[0u8; 32]; 11];
    assert!(groth16.verify(&vk, &proof, &big_input).is_err());

    let small_vk = VerifyingKey::new();
    let no_input = PublicInput { values: Vec::new() };
    let valid = groth16.verify(&small_vk, &proof, &no_input).unwrap();
    assert!(valid);

    let mut thin_proof = Proof::new();
    thin_proof.pi_a.push([0u8; 4]);
    thin_proof.pi_b.push([[0u8; 4]; 2]);
    thin_proof.pi_c.push([0u8; 4]);
    let thin_valid = groth16.verify(&small_vk, &thin_proof, &no_input).unwrap();
    assert!(!thin_valid);
}

#[test]
fn test_from_witness_pads_final_chunk() {
    let witness = vec![7u8; 40];
    let input = PublicInput::from_witness(&witness);
    assert_eq!(input.values.len(), 2);
    assert_eq!(input.values[0], [7u8; 32]);
    let mut expected = [0u8; 32];
    for slot in expected.iter_mut().take(8) {
        *slot = 7;
    }
    assert_eq!(input.values[1], expected);
}

#[test]
fn test_generate_proof_values() {
    let mut groth16 = ZKGroth16::new();
    let witness = vec![0x10u8, 0x20, 0x30, 0x40, 0x50];
    let proof = groth16.generate_proof(&witness).unwrap();
    // Word i of the first group XORs the four-byte witness prefix with
    // offsets i .. i + 3.
    assert_eq!(proof.pi_a[0], [0x10, 0x21, 0x32, 0x43]);
    assert_eq!(proof.pi_a[2], [0x12, 0x23, 0x34, 0x45]);
    assert_eq!(proof.pi_b[0][1], [0x1a, 0x2b, 0x3c, 0x4d]);
    assert_eq!(proof.pi_c[0], [0x04, 0x35, 0x26, 0x57]);
}

#[test]
fn test_keygen_is_fixed_pair() {
    let ec = Ed25519Riscv::new();
    let (sk, pk) = ec.keygen();
    for i in 0..32 {
        assert_eq!(sk[i], i as u8);
        assert_eq!(pk[i], (i + 10) as u8);
    }
}

#[test]
fn test_scalar_mul_and_point_add_are_xor() {
    let ec = Ed25519Riscv::new();
    let a = [0b1010u8; 32];
    let b = [0b0110u8; 32];
    assert_eq!(ec.scalar_mul(&a, &b).unwrap(), [0b1100u8; 32]);
    assert_eq!(ec.point_add(&a, &b).unwrap(), [0b1100u8; 32]);
}

#[test]
fn test_aes_short_input_padded_to_block() {
    let aes = zk_rollup::crypto::aes::Aes256Riscv::new();
    let key = [0u8; 32];
    let encrypted = aes.encrypt_aes256(b"tiny", &key).unwrap();
    assert_eq!(encrypted.len(), 16);
    assert_eq!(&encrypted[..4], &[b't' ^ 0x42, b'i' ^ 0x42, b'n' ^ 0x42, b'y' ^ 0x42]);
    assert!(encrypted[4..].iter().all(|&b| b == 0));
    assert!(aes.decrypt_aes256(&[], &key).is_err());
}

#[test]
fn test_key_expansion_mixes_key() {
    let mut aes = zk_rollup::crypto::aes::Aes256Riscv::new();
    let key = [0x0fu8; 32];
    let expanded = aes.key_expansion(&key).unwrap();
    assert_eq!(expanded.len(), 240);
    assert_eq!(&expanded[..13], &[0x0f; 13]);
    // The first generated word differs from the zero tail it overwrites.
    assert_ne!(&expanded[16..20], &[0x0f; 4]);
}

#[test]
fn test_enclave_counter_assigns_sequential_ids() {
    let mut counter: u64 = 0;
    let first = TeeEnclave::new(&mut counter, EnclaveConfig::default()).unwrap();
    let second = TeeEnclave::new(&mut counter, EnclaveConfig::default()).unwrap();
    assert_eq!(first.get_id(), 0);
    assert_eq!(second.get_id(), 1);
    assert_eq!(counter, 2);
}

#[test]
fn test_attestation_report_carries_user_data() {
    let report = AttestationReport::generate(7, &[9u8, 8, 7]).unwrap();
    assert_eq!(report.enclave_id, 7);
    assert_eq!(report.user_data, vec![9u8, 8, 7]);
    assert_eq!(report.measurement, vec![0u8; 32]);
}

#[test]
fn test_secure_storage_contains_and_overwrite() {
    let mut storage = SecureStorage::new("props".to_string());
    assert!(!storage.contains("key1").unwrap());
    storage.write("key1", &EncryptedData::new(vec![1, 2, 3])).unwrap();
    assert!(storage.contains("key1").unwrap());
    storage.write("key1", &EncryptedData::new(vec![4, 5])).unwrap();
    let read_back = storage.read("key1").unwrap().unwrap();
    assert_eq!(read_back.ciphertext, vec![4, 5]);
}
