//! The networks that the bot runs on.

use vstd::prelude::*;

verus! {

/// A NEAR network.
#[derive(Clone, Copy, Debug, PartialEq, Eq, Structural)]
pub enum Network {
    Mainnet,
    Testnet,
}

} // verus!
