//! What a squash reads of the source chainstate and of its sortition DB.

use crate::ids::{BlockHeaderHash, ConsensusHash, SortitionId, StacksBlockId};
use vstd::prelude::*;

verus! {

/// What one read of the source databases gave back: a row, no row, or the
/// text of the failure.
pub type Lookup<T> = Result<Option<T>, String>;

/// The sortition that one burn block led to.
#[derive(Debug, Clone, Copy, PartialEq, Eq)]
pub struct BlockSnapshot {
    /// Bitcoin height of the burn block.
    pub block_height: u64,
    /// Identifier of the sortition.
    pub sortition_id: SortitionId,
    /// Consensus hash of the sortition.
    pub consensus_hash: ConsensusHash,
    /// Whether the sortition had a winner, and so started a tenure.
    pub sortition: bool,
}

/// Header of a Stacks block, as far as a squash depends on it.
#[derive(Debug, Clone, Copy, PartialEq, Eq)]
pub struct StacksHeader {
    /// Identifier of the block.
    pub block_id: StacksBlockId,
    /// Consensus hash of the tenure that the block belongs to.
    pub consensus_hash: ConsensusHash,
    /// Hash of the block header.
    pub block_hash: BlockHeaderHash,
    /// Stacks height of the block.
    pub stacks_block_height: u64,
    /// Consensus hash of the burn block that the block was mined against; a
    /// block from before Nakamoto has none.
    pub burn_view: Option<ConsensusHash>,
}

/// The canonical Nakamoto tip that a node derives from a sortition snapshot.
#[derive(Debug, Clone, Copy, PartialEq, Eq)]
pub struct RuntimeTip {
    /// Identifier of the tip block.
    pub block_id: StacksBlockId,
    /// Burn view that the sortition DB records for the tip.
    pub burn_view: ConsensusHash,
    /// Stacks height that the sortition DB records for the tip.
    pub stacks_block_height: u64,
}

} // verus!
