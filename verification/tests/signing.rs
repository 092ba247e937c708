use near_crypto::{KeyType, SecretKey, Signature};
use near_primitives::hash::CryptoHash;
use near_sdk::bs58;
use templar_bots::account::AccountId;
use templar_bots::crypto::{PublicKey, Signer, UnreadableKey};
use templar_bots::transaction::{hash_text, FunctionCallAction, Transaction};

fn account(text: &str) -> AccountId {
    AccountId::parse(text).unwrap()
}

fn signer(key_type: KeyType) -> (Signer, SecretKey) {
    let secret_key = SecretKey::from_seed(key_type, "liquidator");
    (
        Signer::new(account("bot.near"), secret_key.to_string()).unwrap(),
        secret_key,
    )
}

fn transaction(signer: &Signer) -> Transaction {
    Transaction {
        signer_id: signer.account_id().clone(),
        public_key: signer.public_key(),
        nonce: 7,
        receiver_id: account("usdt.near"),
        block_hash: [3; 32],
        actions: vec![FunctionCallAction {
            method_name: "ft_transfer_call".to_string(),
            args: vec![1, 2, 3],
            gas: 100_000_000_000_000,
            deposit: 1,
        }],
    }
}

fn near_hash(signer: &Signer, key: &SecretKey, nonce: u64) -> CryptoHash {
    near_primitives::transaction::Transaction::V0(near_primitives::transaction::TransactionV0 {
        signer_id: signer.account_id().as_str().parse().unwrap(),
        public_key: key.public_key(),
        nonce,
        receiver_id: "usdt.near".parse().unwrap(),
        block_hash: CryptoHash([3; 32]),
        actions: vec![near_primitives::transaction::Action::from(
            near_primitives::transaction::FunctionCallAction {
                method_name: "ft_transfer_call".to_string(),
                args: vec![1, 2, 3],
                gas: 100_000_000_000_000,
                deposit: 1,
            },
        )],
    })
    .get_hash_and_size()
    .0
}

#[test]
fn signer_knows_its_account_and_public_key() {
    let (ed, key) = signer(KeyType::ED25519);
    assert_eq!(ed.account_id().as_str(), "bot.near");
    assert!(matches!(ed.public_key(), PublicKey::Ed25519(_)));
    assert_eq!(ed.public_key_text(), key.public_key().to_string());
    assert!(ed.public_key_text().starts_with("ed25519:"));

    let (secp, key) = signer(KeyType::SECP256K1);
    assert!(matches!(secp.public_key(), PublicKey::Secp256k1(_)));
    assert_eq!(secp.public_key_text(), key.public_key().to_string());
    assert!(secp.public_key_text().starts_with("secp256k1:"));
}

#[test]
fn public_key_of_the_test_seed() {
    let key = SecretKey::from_seed(KeyType::ED25519, "test").to_string();
    let signer = Signer::new(account("test.near"), key).unwrap();
    assert_eq!(
        signer.public_key_text(),
        "ed25519:DcA2MzgpJbrUATQLLceocVckhhAqrkingax4oJ9kZ847"
    );
}

#[test]
fn signatures_verify() {
    let (ed, key) = signer(KeyType::ED25519);
    let data = b"some message of any length, longer than a hash is";
    let signature: Signature = ed.sign(data).parse().unwrap();
    assert!(signature.verify(data, &key.public_key()));
    assert!(!signature.verify(b"another message", &key.public_key()));
    assert_eq!(ed.sign(data), ed.clone().sign(data));
    assert_ne!(ed.sign(data), ed.sign(b"another message"));

    let (secp, key) = signer(KeyType::SECP256K1);
    let signature: Signature = secp.sign(&[9; 32]).parse().unwrap();
    assert!(signature.verify(&[9; 32], &key.public_key()));
    assert_eq!(secp.sign(&[9; 32]), secp.sign(&[9; 32]));
}

#[test]
fn unreadable_keys_are_refused() {
    for text in ["", "ed25519:", "ed25519:abc", "rsa:abc", "not a key"] {
        assert_eq!(
            Signer::new(account("bot.near"), text.to_string()).err(),
            Some(UnreadableKey)
        );
    }
}

#[test]
fn keys_know_what_they_sign() {
    let SecretKey::ED25519(key) = SecretKey::from_seed(KeyType::ED25519, "one") else {
        panic!("an ed25519 key");
    };
    let SecretKey::ED25519(other) = SecretKey::from_seed(KeyType::ED25519, "two") else {
        panic!("an ed25519 key");
    };
    let mut mixed = key.0;
    mixed[32..].copy_from_slice(&other.0[32..]);
    let text = format!("ed25519:{}", bs58::encode(&mixed[..]).into_string());
    let mixed = Signer::new(account("bot.near"), text).unwrap();
    assert_eq!(mixed.public_key(), PublicKey::Ed25519(other.0[32..].try_into().unwrap()));
    assert!(!mixed.can_sign_hashes() && !mixed.can_sign_messages());
    let (ed, _) = signer(KeyType::ED25519);
    assert!(ed.can_sign_hashes() && ed.can_sign_messages());
    let (secp, _) = signer(KeyType::SECP256K1);
    assert!(secp.can_sign_hashes() && !secp.can_sign_messages());
}

#[test]
fn transactions_are_hashed_like_the_network_hashes_them() {
    for key_type in [KeyType::ED25519, KeyType::SECP256K1] {
        let (signer, key) = signer(key_type);
        let tx = transaction(&signer);
        assert!(tx.is_encodable());
        assert_eq!(tx.hash(), near_hash(&signer, &key, 7).0);
        assert_ne!(tx.hash(), near_hash(&signer, &key, 8).0);
    }
}

#[test]
fn hashes_are_displayed_in_base58() {
    assert_eq!(hash_text(&[0; 32]), "1".repeat(32));
    let mut one = [0; 32];
    one[31] = 58;
    assert_eq!(hash_text(&one), format!("{}21", "1".repeat(31)));
    assert_eq!(hash_text(&[7; 32]), CryptoHash([7; 32]).to_string());
}
