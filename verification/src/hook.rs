//! The activation policy: which transactions are observed.
use crate::evm::same_hash;
use alloy_primitives::B256;
use vstd::prelude::*;

verus! {

/// Selects the transactions for which the observers run.
#[derive(Clone, Copy, Debug, PartialEq, Eq)]
pub enum Hook {
    /// No transaction is observed.
    Inactive,
    /// Every transaction of the block at this height is observed.
    Block(u64),
    /// The transaction with this hash is observed.
    Transaction(B256),
    /// Every transaction is observed.
    All,
}

impl Hook {
    /// Whether the hook selects the transaction `tx_hash` in the block at
    /// height `block_number`.
    pub open spec fn admits(self, block_number: nat, tx_hash: B256) -> bool {
        match self {
            Hook::Inactive => false,
            Hook::Block(block) => block_number == block,
            Hook::Transaction(hash) => hash == tx_hash,
            Hook::All => true,
        }
    }

    /// Decides whether the transaction `tx_hash` is observed, given the height
    /// of its block.
    ///
    /// `height` is `None` for a block whose height exceeds `u64::MAX`; no
    /// `Hook::Block` selects such a block.
    pub fn selects(&self, height: Option<u64>, tx_hash: &B256) -> (selected: bool)
        ensures
            selected == match *self {
                Hook::Inactive => false,
                Hook::Block(block) => height == Some(block),
                Hook::Transaction(hash) => hash == *tx_hash,
                Hook::All => true,
            },
    {
        match self {
            Hook::Inactive => false,
            Hook::Block(block) => match height {
                Some(h) => h == *block,
                None => false,
            },
            Hook::Transaction(hash) => same_hash(hash, tx_hash),
            Hook::All => true,
        }
    }
}

impl Default for Hook {
    /// The default hook observes nothing.
    fn default() -> (hook: Self)
        ensures
            hook == Hook::Inactive,
    {
        Hook::Inactive
    }
}

} // verus!
