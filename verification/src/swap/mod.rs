//! Swapping one token for another.

use vstd::prelude::*;

use crate::account::AccountId;

pub mod intents;
pub mod rhea;

pub use intents::{
    IntentMessage, Intents, IntentsQuoteParams, IntentsQuoteRequest, IntentsQuoteResponse,
    IntentsSwap, PublishIntentsParams, PublishIntentsRequest, SignedData, SolverFailure, SolverReply,
    SwapMessage,
};
pub use rhea::{QuoteRequest, QuoteResponse, RheaSwap, SwapRequestMsg};

verus! {

/// A quote for a swap.
pub trait QuoteOutput: Send + Sync {
    /// The amount that the quote names.
    spec fn amount_quoted(&self) -> u128;

    /// Converts the quote output to the amount that it names.
    fn to_u128(&self) -> (amount: u128)
        ensures
            amount == self.amount_quoted(),
    ;
}

/// The services that the bot can swap with.
#[derive(Clone, Copy, Debug, PartialEq, Eq, Structural)]
pub enum SwapType {
    RheaSwap,
    NearIntents,
}

/// A token.
#[derive(Debug, PartialEq, Eq)]
pub enum FungibleAsset {
    /// The token of a contract that manages one token.
    Nep141(AccountId),
    /// A token of a contract that manages several.
    Nep245 { contract_id: AccountId, token_id: String },
}

impl FungibleAsset {
    /// The contract of a token whose contract manages one token.
    pub fn into_nep141(self) -> (contract_id: Option<AccountId>)
        ensures
            contract_id == (match self {
                FungibleAsset::Nep141(contract_id) => Some(contract_id),
                FungibleAsset::Nep245 { .. } => None,
            }),
    {
        match self {
            FungibleAsset::Nep141(contract_id) => Some(contract_id),
            FungibleAsset::Nep245 { .. } => None,
        }
    }

    /// The contract that manages the token.
    pub open spec fn contract(self) -> AccountId {
        match self {
            FungibleAsset::Nep141(contract_id) => contract_id,
            FungibleAsset::Nep245 { contract_id, .. } => contract_id,
        }
    }

    /// The contract that manages the token.
    pub fn contract_id(&self) -> (contract_id: AccountId)
        ensures
            contract_id == self.contract(),
    {
        match self {
            FungibleAsset::Nep141(contract_id) => contract_id.clone(),
            FungibleAsset::Nep245 { contract_id, .. } => contract_id.clone(),
        }
    }
}

} // verus!
