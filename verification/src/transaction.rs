//! Transactions and their hashes.

use vstd::prelude::*;
use vstd::utf8::encode_utf8;

use crate::account::{valid_account_id, AccountId};
use crate::crypto::{base58, PublicKey};

verus! {

/// A call of a contract method.
#[derive(Debug, PartialEq, Eq)]
pub struct FunctionCallAction {
    pub method_name: String,
    pub args: Vec<u8>,
    /// The gas attached to the call.
    pub gas: u64,
    /// The deposit attached to the call, in yoctoNEAR.
    pub deposit: u128,
}

impl View for FunctionCallAction {
    type V = (Seq<char>, Seq<u8>, u64, u128);

    open spec fn view(&self) -> (Seq<char>, Seq<u8>, u64, u128) {
        (self.method_name@, self.args@, self.gas, self.deposit)
    }
}

impl FunctionCallAction {
    /// Whether the parts have lengths that the wire format of transactions can hold.
    pub open spec fn encodable(self) -> bool {
        encode_utf8(self.method_name@).len() <= u32::MAX && self.args@.len() <= u32::MAX
    }
}

/// A transaction of function calls, not signed yet.
#[derive(Debug, PartialEq, Eq)]
pub struct Transaction {
    pub signer_id: AccountId,
    pub public_key: PublicKey,
    pub nonce: u64,
    pub receiver_id: AccountId,
    /// A recent block, on top of which the transaction is valid.
    pub block_hash: [u8; 32],
    pub actions: Vec<FunctionCallAction>,
}

/// The hash of a transaction: what `get_hash_and_size` of
/// `near_primitives::transaction::Transaction` gives for a transaction in the first version
/// of the format with these fields.
pub uninterp spec fn transaction_hash_of(
    signer_id: Seq<char>,
    public_key: Seq<u8>,
    nonce: u64,
    receiver_id: Seq<char>,
    block_hash: Seq<u8>,
    actions: Seq<(Seq<char>, Seq<u8>, u64, u128)>,
) -> Seq<u8>;

/// Calls `get_hash_and_size` of `near_primitives::transaction::Transaction`, on a transaction
/// in the first version of the format.
///
/// Claimed of it: the hash depends on the fields of the transaction alone. It panics where a
/// part is too long for the format, so those transactions are left out.
#[verifier::external_body]
fn hash_transaction(tx: &Transaction) -> (hash: [u8; 32])
    requires
        tx.encodable(),
        valid_account_id(tx.signer_id@),
        valid_account_id(tx.receiver_id@),
    ensures
        hash@ == transaction_hash_of(
            tx.signer_id@,
            tx.public_key.bytes(),
            tx.nonce,
            tx.receiver_id@,
            tx.block_hash@,
            tx.actions@.map_values(|action: FunctionCallAction| action@),
        ),
{
    near_primitives::transaction::Transaction::V0(near_primitives::transaction::TransactionV0 {
        signer_id: tx.signer_id.as_str().parse().expect("an account"),
        public_key: match tx.public_key {
            PublicKey::Ed25519(key) => near_crypto::PublicKey::ED25519(key.into()),
            PublicKey::Secp256k1(key) => near_crypto::PublicKey::SECP256K1(key.into()),
        },
        nonce: tx.nonce,
        receiver_id: tx.receiver_id.as_str().parse().expect("an account"),
        block_hash: near_primitives::hash::CryptoHash(tx.block_hash),
        actions: tx.actions.iter().map(|action| near_primitives::transaction::FunctionCallAction {
            method_name: action.method_name.clone(), args: action.args.clone(), gas: action.gas, deposit: action.deposit,
        }.into()).collect(),
    })
    .get_hash_and_size().0.0
}

/// Displays a `near_primitives::hash::CryptoHash`.
///
/// Claimed of it: the text is the base58 text of the bytes.
#[verifier::external_body]
fn display_hash(hash: &[u8; 32]) -> (text: String)
    ensures
        text@ == base58(hash@),
{
    near_primitives::hash::CryptoHash(*hash).to_string()
}

impl Transaction {
    /// Whether the parts have lengths that the wire format of transactions can hold.
    pub open spec fn encodable(self) -> bool {
        &&& self.actions@.len() <= u32::MAX
        &&& forall|i: int|
            0 <= i < self.actions@.len() ==> (#[trigger] self.actions@[i]).encodable()
    }

    /// The hash of the transaction.
    pub open spec fn hash_bytes(self) -> Seq<u8> {
        transaction_hash_of(
            self.signer_id@,
            self.public_key.bytes(),
            self.nonce,
            self.receiver_id@,
            self.block_hash@,
            self.actions@.map_values(|action: FunctionCallAction| action@),
        )
    }

    /// Whether the parts have lengths that the wire format of transactions can hold.
    pub fn is_encodable(&self) -> (encodable: bool)
        ensures
            encodable == self.encodable(),
    {
        let count: usize = self.actions.len();
        if count > 0xffff_ffff {
            return false;
        }
        let mut i: usize = 0;
        while i < count
            invariant
                i <= count == self.actions@.len(),
                forall|j: int| 0 <= j < i ==> (#[trigger] self.actions@[j]).encodable(),
            decreases count - i,
        {
            let action = &self.actions[i];
            if action.method_name.as_str().as_bytes().len() > 0xffff_ffff || action.args.len()
                > 0xffff_ffff {
                assert(!self.actions@[i as int].encodable());
                return false;
            }
            i += 1;
        }
        true
    }

    /// The hash of the transaction, which its signature covers.
    pub fn hash(&self) -> (hash: [u8; 32])
        requires
            self.encodable(),
        ensures
            hash@ == self.hash_bytes(),
    {
        // An identifier that has a text is valid.
        let _ = self.signer_id.as_str();
        let _ = self.receiver_id.as_str();
        hash_transaction(self)
    }
}

/// The text of a hash.
pub fn hash_text(hash: &[u8; 32]) -> (text: String)
    ensures
        text@ == base58(hash@),
{
    display_hash(hash)
}

} // verus!
