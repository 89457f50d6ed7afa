//! The checks that a tenure must pass before the Stacks and sortition MARFs can
//! be squashed at its boundary, each as a decision on what was read.

use crate::chain::{BlockSnapshot, Lookup, RuntimeTip, StacksHeader};
use crate::config::PoxConstants;
use crate::error::SquashTargetError;
use crate::ids::{BlockHeaderHash, ConsensusHash, SortitionId, StacksBlockId};
use vstd::prelude::*;

verus! {

/// Canonical Stacks and sortition MARF boundaries that must be squashed together.
#[derive(Debug, Clone, Copy, PartialEq, Eq)]
pub struct CanonicalSquashTargets {
    /// Tenure-start Stacks block height that Clarity and Index squash to.
    pub stacks_height: u32,
    /// Tenure-start Stacks tip that Clarity and Index squash to.
    pub stacks_tip: StacksBlockId,
    /// Consensus hash of the tenure-start tip.
    pub stacks_tip_consensus_hash: ConsensusHash,
    /// Burn view consensus hash shared by the tenure-start and tenure-end headers.
    pub stacks_tip_burn_view_consensus_hash: ConsensusHash,
    /// Block hash of the tenure-start tip.
    pub stacks_tip_block_hash: BlockHeaderHash,
    /// Bitcoin height of the squash boundary (the burn view of the tenure).
    pub squash_bitcoin_height: u32,
    /// Sortition MARF height for `squash_bitcoin_height`.
    pub sortition_marf_height: u32,
    /// Source canonical burn tip: selects the fork of the sortition MARF.
    pub sortition_canonical_tip: SortitionId,
    /// Squash boundary sortition (at `squash_bitcoin_height`) that the squashed
    /// output holds.
    pub sortition_boundary_tip: SortitionId,
    /// First Bitcoin block height of the sortition DB, which MARF heights count
    /// from.
    pub first_bitcoin_height: u32,
}

/// Where the source databases are, which network they belong to, and which
/// tenure to squash at.
#[derive(Debug, Clone, Copy, PartialEq, Eq)]
pub struct SquashTargetQuery<'a> {
    /// Root directory of the source chainstate.
    pub chainstate_root: &'a str,
    /// Directory of the source sortition DB.
    pub sortition_db_dir: &'a str,
    /// Bitcoin height at which the tenure starts.
    pub tenure_start_bitcoin_height: u32,
    /// Whether the chainstate belongs to mainnet.
    pub mainnet: bool,
    /// Identifier of the chain.
    pub chain_id: u32,
    /// PoX constants of the network.
    pub pox_constants: PoxConstants,
}

/// What the later checks need of the opened sortition DB.
#[derive(Debug, Clone, Copy, PartialEq, Eq)]
pub struct BurnContext {
    /// First Bitcoin block height of the sortition DB.
    pub first_bitcoin_height: u32,
    /// Canonical burn-chain tip that ancestor lookups are anchored on.
    pub canonical_tip: BlockSnapshot,
}

/// The first and the last block of a tenure whose burn views agree.
#[derive(Debug, Clone, Copy, PartialEq, Eq)]
pub struct TenureBounds {
    /// Header of the first block.
    pub start: StacksHeader,
    /// Header of the last block.
    pub end: StacksHeader,
    /// Stacks height of the first block.
    pub stacks_height: u32,
    /// The burn view of both.
    pub burn_view: ConsensusHash,
}

/// What the sortition at the requested height says of a tenure.
#[derive(Debug, Clone, Copy, PartialEq, Eq)]
pub enum TenureStart {
    /// It had a winner, and so started a tenure.
    Started(BlockSnapshot),
    /// It had none.
    NotStarted,
}

/// The verdict on opening the chainstate of `query`.
pub open spec fn chainstate_outcome<'a>(
    query: SquashTargetQuery<'a>,
    opened: Result<(), String>,
) -> Result<(), SquashTargetError<'a>> {
    match opened {
        Ok(()) => Ok(()),
        Err(cause) => Err(
            SquashTargetError::ChainstateOpen { path: query.chainstate_root, cause },
        ),
    }
}

/// Takes note of whether the source chainstate could be opened.
pub fn open_chainstate<'a>(query: &SquashTargetQuery<'a>, opened: Result<(), String>) -> (r: Result<
    (),
    SquashTargetError<'a>,
>)
    ensures
        r == chainstate_outcome(*query, opened),
{
    match opened {
        Ok(()) => Ok(()),
        Err(cause) => Err(
            SquashTargetError::ChainstateOpen { path: query.chainstate_root, cause },
        ),
    }
}

/// The first Bitcoin height of the sortition DB of `query`.
pub open spec fn first_height_outcome<'a>(
    query: SquashTargetQuery<'a>,
    opened: Result<u64, String>,
) -> Result<u32, SquashTargetError<'a>> {
    match opened {
        Err(cause) => Err(
            SquashTargetError::SortitionDbOpen { path: query.sortition_db_dir, cause },
        ),
        Ok(height) => if height > u32::MAX {
            Err(SquashTargetError::FirstHeightTooLarge { height })
        } else {
            Ok(height as u32)
        },
    }
}

/// Takes the first Bitcoin height of the sortition DB, once that is open.
pub fn open_sortition_db<'a>(query: &SquashTargetQuery<'a>, opened: Result<u64, String>) -> (r:
    Result<u32, SquashTargetError<'a>>)
    ensures
        r == first_height_outcome(*query, opened),
{
    match opened {
        Err(cause) => Err(
            SquashTargetError::SortitionDbOpen { path: query.sortition_db_dir, cause },
        ),
        Ok(height) => if height > u32::MAX as u64 {
            Err(SquashTargetError::FirstHeightTooLarge { height })
        } else {
            Ok(height as u32)
        },
    }
}

/// The read context of a sortition DB with the given first height.
pub open spec fn burn_context_outcome<'a>(
    first_bitcoin_height: u32,
    tip: Result<BlockSnapshot, String>,
) -> Result<BurnContext, SquashTargetError<'a>> {
    match tip {
        Err(cause) => Err(SquashTargetError::BurnTip { cause }),
        Ok(canonical_tip) => Ok(BurnContext { first_bitcoin_height, canonical_tip }),
    }
}

/// Takes the canonical burn-chain tip that all further lookups are anchored on.
pub fn burn_context<'a>(first_bitcoin_height: u32, tip: Result<BlockSnapshot, String>) -> (r: Result<
    BurnContext,
    SquashTargetError<'a>,
>)
    ensures
        r == burn_context_outcome(first_bitcoin_height, tip),
{
    match tip {
        Err(cause) => Err(SquashTargetError::BurnTip { cause }),
        Ok(canonical_tip) => Ok(BurnContext { first_bitcoin_height, canonical_tip }),
    }
}

/// What the canonical sortition at `start_height` says of a tenure.
pub open spec fn tenure_start_outcome<'a>(
    start_height: u64,
    found: Lookup<BlockSnapshot>,
) -> Result<TenureStart, SquashTargetError<'a>> {
    match found {
        Err(cause) => Err(SquashTargetError::AncestorSnapshot { height: start_height, cause }),
        Ok(None) => Err(SquashTargetError::NoStartSortition { height: start_height }),
        Ok(Some(snapshot)) => if snapshot.sortition {
            Ok(TenureStart::Started(snapshot))
        } else {
            Ok(TenureStart::NotStarted)
        },
    }
}

/// Takes the canonical sortition at `start_height`, and tells whether it
/// started a Nakamoto tenure. One that did not is refused, with a hint at the
/// tenure starts nearby.
pub fn resolve_tenure_start_snapshot<'a>(
    start_height: u64,
    found: Lookup<BlockSnapshot>,
) -> (r: Result<TenureStart, SquashTargetError<'a>>)
    ensures
        r == tenure_start_outcome(start_height, found),
{
    match found {
        Err(cause) => Err(SquashTargetError::AncestorSnapshot { height: start_height, cause }),
        Ok(None) => Err(SquashTargetError::NoStartSortition { height: start_height }),
        Ok(Some(snapshot)) => if snapshot.sortition {
            Ok(TenureStart::Started(snapshot))
        } else {
            Ok(TenureStart::NotStarted)
        },
    }
}

/// The Bitcoin height of the burn block after `start_height`.
pub open spec fn next_height_outcome<'a>(start_height: u64) -> Result<u64, SquashTargetError<'a>> {
    if start_height == u64::MAX {
        Err(SquashTargetError::NextHeightOverflow { height: start_height })
    } else {
        Ok((start_height + 1) as u64)
    }
}

/// The Bitcoin height of the burn block after `start_height`, if there is one.
pub fn next_burn_height<'a>(start_height: u64) -> (r: Result<u64, SquashTargetError<'a>>)
    ensures
        r == next_height_outcome(start_height),
{
    match start_height.checked_add(1) {
        Some(next_height) => Ok(next_height),
        None => Err(SquashTargetError::NextHeightOverflow { height: start_height }),
    }
}

/// The verdict on the burn block after the tenure start.
pub open spec fn single_burn_block_outcome<'a>(
    start_height: u64,
    next_height: u64,
    found: Lookup<BlockSnapshot>,
) -> Result<(), SquashTargetError<'a>> {
    match found {
        Err(cause) => Err(SquashTargetError::AncestorSnapshot { height: next_height, cause }),
        Ok(None) => Err(SquashTargetError::NoNextSortition { next_height }),
        Ok(Some(next)) => if next.sortition {
            Ok(())
        } else {
            Err(SquashTargetError::TenureExtends { height: start_height, next_height })
        },
    }
}

/// Requires the tenure that starts at `start_height` to be exactly one burn
/// block long, given the canonical sortition at the height after it.
///
/// A squashed node boots without ever reading the sortition MARF below its
/// boundary if the burn block after the boundary has a sortition of its own:
/// the parent of that sortition is then the boundary itself. A tenure that goes
/// on through a burn block without a sortition would not have that property.
///
/// The boundary is the first block of the tenure; the later blocks of the
/// tenure are dropped from the snapshot and fetched from peers at boot. The
/// sortition MARF stays anchored at the burn view of the tenure, whose runtime
/// tip is the highest canonical block of the tenure.
pub fn assert_single_burn_block_tenure<'a>(
    start_height: u64,
    next_height: u64,
    found: Lookup<BlockSnapshot>,
) -> (r: Result<(), SquashTargetError<'a>>)
    ensures
        r == single_burn_block_outcome(start_height, next_height, found),
{
    match found {
        Err(cause) => Err(SquashTargetError::AncestorSnapshot { height: next_height, cause }),
        Ok(None) => Err(SquashTargetError::NoNextSortition { next_height }),
        Ok(Some(next)) => if next.sortition {
            Ok(())
        } else {
            Err(SquashTargetError::TenureExtends { height: start_height, next_height })
        },
    }
}

/// The highest known block header of the tenure.
pub open spec fn tenure_end_outcome<'a>(
    start_height: u64,
    tenure: ConsensusHash,
    found: Lookup<StacksHeader>,
) -> Result<StacksHeader, SquashTargetError<'a>> {
    match found {
        Err(cause) => Err(SquashTargetError::TenureEndLookup { height: start_height, cause }),
        Ok(None) => Err(SquashTargetError::NoNakamotoBlocks { height: start_height }),
        Ok(Some(end)) => if end.consensus_hash != tenure {
            Err(SquashTargetError::HighestBlockMismatch { tenure, found: end.consensus_hash })
        } else {
            Ok(end)
        },
    }
}

/// Takes the highest known Nakamoto block header in the tenure that starts at
/// `start_height`, and requires it to belong to the tenure that the sortition
/// there started.
pub fn resolve_tenure_end_header<'a>(
    start_height: u64,
    tenure: &ConsensusHash,
    found: Lookup<StacksHeader>,
) -> (r: Result<StacksHeader, SquashTargetError<'a>>)
    ensures
        r == tenure_end_outcome(start_height, *tenure, found),
{
    match found {
        Err(cause) => Err(SquashTargetError::TenureEndLookup { height: start_height, cause }),
        Ok(None) => Err(SquashTargetError::NoNakamotoBlocks { height: start_height }),
        Ok(Some(end)) => if end.consensus_hash == *tenure {
            Ok(end)
        } else {
            Err(
                SquashTargetError::HighestBlockMismatch {
                    tenure: *tenure,
                    found: end.consensus_hash,
                },
            )
        },
    }
}

/// The burn view that the first and the last block of a tenure share.
pub open spec fn burn_view_outcome<'a>(
    start: StacksHeader,
    end: StacksHeader,
    stacks_height: u32,
) -> Result<ConsensusHash, SquashTargetError<'a>> {
    match (start.burn_view, end.burn_view) {
        (None, _) => Err(
            SquashTargetError::StartBurnViewMissing {
                block_id: start.block_id,
                stacks_height,
            },
        ),
        (Some(_), None) => Err(
            SquashTargetError::EndBurnViewMissing {
                block_id: end.block_id,
                height: end.stacks_block_height,
            },
        ),
        (Some(start_view), Some(end_view)) => if start_view != end_view {
            Err(
                SquashTargetError::BurnViewMismatch {
                    start_id: start.block_id,
                    start_view,
                    end_id: end.block_id,
                    end_view,
                },
            )
        } else {
            Ok(start_view)
        },
    }
}

/// Requires the first and the last block of the tenure to have a burn view, and
/// the same one. `stacks_height` is the Stacks height of the first block.
pub fn resolve_tenure_burn_view<'a>(
    start: &StacksHeader,
    end: &StacksHeader,
    stacks_height: u32,
) -> (r: Result<ConsensusHash, SquashTargetError<'a>>)
    ensures
        r == burn_view_outcome(*start, *end, stacks_height),
{
    let start_view = match start.burn_view {
        Some(view) => view,
        None => {
            return Err(
                SquashTargetError::StartBurnViewMissing {
                    block_id: start.block_id,
                    stacks_height,
                },
            );
        },
    };
    let end_view = match end.burn_view {
        Some(view) => view,
        None => {
            return Err(
                SquashTargetError::EndBurnViewMissing {
                    block_id: end.block_id,
                    height: end.stacks_block_height,
                },
            );
        },
    };
    if end_view == start_view {
        Ok(start_view)
    } else {
        Err(
            SquashTargetError::BurnViewMismatch {
                start_id: start.block_id,
                start_view,
                end_id: end.block_id,
                end_view,
            },
        )
    }
}

/// The bounds of a tenure from its first and its last block.
pub open spec fn tenure_bounds_outcome<'a>(
    start_height: u64,
    start: StacksHeader,
    end: StacksHeader,
) -> Result<TenureBounds, SquashTargetError<'a>> {
    if start.stacks_block_height > end.stacks_block_height {
        Err(
            SquashTargetError::BlockOrder {
                start_height: start.stacks_block_height,
                end_height: end.stacks_block_height,
                bitcoin_height: start_height,
            },
        )
    } else if start.stacks_block_height > u32::MAX {
        Err(SquashTargetError::StacksHeightTooLarge { height: start.stacks_block_height })
    } else {
        match burn_view_outcome(start, end, start.stacks_block_height as u32) {
            Err(e) => Err(e),
            Ok(burn_view) => Ok(
                TenureBounds {
                    start,
                    end,
                    stacks_height: start.stacks_block_height as u32,
                    burn_view,
                },
            ),
        }
    }
}

/// Requires the first block of the tenure to be no higher than the last, its
/// height to fit in 32 bits, and the two to share a burn view.
pub fn tenure_bounds<'a>(start_height: u64, start: &StacksHeader, end: &StacksHeader) -> (r: Result<
    TenureBounds,
    SquashTargetError<'a>,
>)
    ensures
        r == tenure_bounds_outcome(start_height, *start, *end),
{
    if start.stacks_block_height > end.stacks_block_height {
        return Err(
            SquashTargetError::BlockOrder {
                start_height: start.stacks_block_height,
                end_height: end.stacks_block_height,
                bitcoin_height: start_height,
            },
        );
    }
    if start.stacks_block_height > u32::MAX as u64 {
        return Err(
            SquashTargetError::StacksHeightTooLarge { height: start.stacks_block_height },
        );
    }
    let stacks_height: u32 = start.stacks_block_height as u32;
    match resolve_tenure_burn_view(start, end, stacks_height) {
        Err(e) => Err(e),
        Ok(burn_view) => Ok(TenureBounds { start: *start, end: *end, stacks_height, burn_view }),
    }
}

/// The sortition snapshot of the burn view.
pub open spec fn burn_view_snapshot_outcome<'a>(
    burn_view: ConsensusHash,
    found: Lookup<BlockSnapshot>,
) -> Result<BlockSnapshot, SquashTargetError<'a>> {
    match found {
        Err(cause) => Err(SquashTargetError::BurnViewLookup { burn_view, cause }),
        Ok(None) => Err(SquashTargetError::NoBurnViewSnapshot { burn_view }),
        Ok(Some(snapshot)) => Ok(snapshot),
    }
}

/// Takes the sortition snapshot of the burn view.
pub fn burn_view_snapshot<'a>(burn_view: &ConsensusHash, found: Lookup<BlockSnapshot>) -> (r: Result<
    BlockSnapshot,
    SquashTargetError<'a>,
>)
    ensures
        r == burn_view_snapshot_outcome(*burn_view, found),
{
    match found {
        Err(cause) => Err(SquashTargetError::BurnViewLookup { burn_view: *burn_view, cause }),
        Ok(None) => Err(SquashTargetError::NoBurnViewSnapshot { burn_view: *burn_view }),
        Ok(Some(snapshot)) => Ok(snapshot),
    }
}

/// The squash Bitcoin height of a burn view with the given snapshot.
pub open spec fn squash_height_outcome<'a>(
    burn_view: ConsensusHash,
    snapshot: BlockSnapshot,
    canonical: Lookup<BlockSnapshot>,
    tenure_start_bitcoin_height: u32,
    first_bitcoin_height: u32,
) -> Result<u32, SquashTargetError<'a>> {
    let height = snapshot.block_height;
    match canonical {
        Err(cause) => Err(SquashTargetError::CanonicalAncestor { height, cause }),
        Ok(None) => Err(SquashTargetError::NoCanonicalAncestor { height, burn_view }),
        Ok(Some(canonical)) => if canonical.sortition_id != snapshot.sortition_id {
            Err(
                SquashTargetError::OrphanBurnView {
                    burn_view,
                    sortition_id: snapshot.sortition_id,
                    height,
                },
            )
        } else if height > u32::MAX {
            Err(SquashTargetError::BurnViewHeightTooLarge { height })
        } else if height < tenure_start_bitcoin_height {
            Err(
                SquashTargetError::BurnViewBeforeTenure {
                    squash_height: height as u32,
                    tenure_start: tenure_start_bitcoin_height,
                },
            )
        } else if height < first_bitcoin_height {
            Err(
                SquashTargetError::BurnViewBeforeFirst {
                    squash_height: height as u32,
                    first: first_bitcoin_height,
                },
            )
        } else {
            Ok(height as u32)
        },
    }
}

/// Requires the snapshot of the burn view to be the canonical sortition at its
/// height, and takes the squash Bitcoin height from it: no lower than the
/// tenure start and no lower than the first block of the sortition DB.
pub fn resolve_squash_burn_view_snapshot<'a>(
    burn_view: &ConsensusHash,
    snapshot: &BlockSnapshot,
    canonical: Lookup<BlockSnapshot>,
    tenure_start_bitcoin_height: u32,
    first_bitcoin_height: u32,
) -> (r: Result<u32, SquashTargetError<'a>>)
    ensures
        r == squash_height_outcome(
            *burn_view,
            *snapshot,
            canonical,
            tenure_start_bitcoin_height,
            first_bitcoin_height,
        ),
{
    let height: u64 = snapshot.block_height;
    let canonical = match canonical {
        Err(cause) => {
            return Err(SquashTargetError::CanonicalAncestor { height, cause });
        },
        Ok(None) => {
            return Err(SquashTargetError::NoCanonicalAncestor { height, burn_view: *burn_view });
        },
        Ok(Some(canonical)) => canonical,
    };
    let is_canonical = canonical.sortition_id == snapshot.sortition_id;
    if !is_canonical {
        return Err(
            SquashTargetError::OrphanBurnView {
                burn_view: *burn_view,
                sortition_id: snapshot.sortition_id,
                height,
            },
        );
    }
    if height > u32::MAX as u64 {
        return Err(SquashTargetError::BurnViewHeightTooLarge { height });
    }
    let squash_bitcoin_height: u32 = height as u32;
    if squash_bitcoin_height < tenure_start_bitcoin_height {
        return Err(
            SquashTargetError::BurnViewBeforeTenure {
                squash_height: squash_bitcoin_height,
                tenure_start: tenure_start_bitcoin_height,
            },
        );
    }
    if squash_bitcoin_height < first_bitcoin_height {
        return Err(
            SquashTargetError::BurnViewBeforeFirst {
                squash_height: squash_bitcoin_height,
                first: first_bitcoin_height,
            },
        );
    }
    Ok(squash_bitcoin_height)
}

/// The verdict on the runtime tip that the boundary snapshot leads to.
pub open spec fn runtime_tip_outcome<'a>(
    snapshot: BlockSnapshot,
    end: StacksHeader,
    burn_view: ConsensusHash,
    found: Lookup<RuntimeTip>,
) -> Result<(), SquashTargetError<'a>> {
    let sortition_id = snapshot.sortition_id;
    match found {
        Err(cause) => Err(SquashTargetError::RuntimeTipLookup { sortition_id, cause }),
        Ok(None) => Err(SquashTargetError::NoRuntimeTip { sortition_id }),
        Ok(Some(tip)) => if tip.block_id != end.block_id {
            Err(
                SquashTargetError::RuntimeTipMismatch {
                    sortition_id,
                    runtime_id: tip.block_id,
                    runtime_height: tip.stacks_block_height,
                    end_id: end.block_id,
                    end_height: end.stacks_block_height,
                },
            )
        } else if tip.stacks_block_height != end.stacks_block_height {
            Err(
                SquashTargetError::RuntimeHeightMismatch {
                    runtime_height: tip.stacks_block_height,
                    end_height: end.stacks_block_height,
                },
            )
        } else if tip.burn_view != burn_view {
            Err(
                SquashTargetError::RuntimeBurnViewMismatch {
                    runtime_view: tip.burn_view,
                    burn_view,
                    sortition_id,
                },
            )
        } else {
            Ok(())
        },
    }
}

/// Requires the boundary snapshot to lead a node back to the last block of the
/// tenure: the runtime tip must have its identifier, its height and the burn
/// view of the tenure. The identifier can match even where the recorded burn
/// view is corrupt.
pub fn validate_runtime_tip_reconstruction<'a>(
    snapshot: &BlockSnapshot,
    end: &StacksHeader,
    burn_view: &ConsensusHash,
    found: Lookup<RuntimeTip>,
) -> (r: Result<(), SquashTargetError<'a>>)
    ensures
        r == runtime_tip_outcome(*snapshot, *end, *burn_view, found),
{
    let sortition_id = snapshot.sortition_id;
    let tip = match found {
        Err(cause) => {
            return Err(SquashTargetError::RuntimeTipLookup { sortition_id, cause });
        },
        Ok(None) => {
            return Err(SquashTargetError::NoRuntimeTip { sortition_id });
        },
        Ok(Some(tip)) => tip,
    };
    let same_block = tip.block_id == end.block_id;
    if !same_block {
        return Err(
            SquashTargetError::RuntimeTipMismatch {
                sortition_id,
                runtime_id: tip.block_id,
                runtime_height: tip.stacks_block_height,
                end_id: end.block_id,
                end_height: end.stacks_block_height,
            },
        );
    }
    if tip.stacks_block_height != end.stacks_block_height {
        return Err(
            SquashTargetError::RuntimeHeightMismatch {
                runtime_height: tip.stacks_block_height,
                end_height: end.stacks_block_height,
            },
        );
    }
    let same_view = tip.burn_view == *burn_view;
    if !same_view {
        return Err(
            SquashTargetError::RuntimeBurnViewMismatch {
                runtime_view: tip.burn_view,
                burn_view: *burn_view,
                sortition_id,
            },
        );
    }
    Ok(())
}

/// The squash boundaries of a tenure that passed every check.
pub open spec fn targets_of(
    context: BurnContext,
    bounds: TenureBounds,
    snapshot: BlockSnapshot,
    squash_bitcoin_height: u32,
) -> CanonicalSquashTargets {
    CanonicalSquashTargets {
        stacks_height: bounds.stacks_height,
        stacks_tip: bounds.start.block_id,
        stacks_tip_consensus_hash: bounds.start.consensus_hash,
        stacks_tip_burn_view_consensus_hash: bounds.burn_view,
        stacks_tip_block_hash: bounds.start.block_hash,
        squash_bitcoin_height,
        sortition_marf_height: (squash_bitcoin_height - context.first_bitcoin_height) as u32,
        sortition_canonical_tip: context.canonical_tip.sortition_id,
        sortition_boundary_tip: snapshot.sortition_id,
        first_bitcoin_height: context.first_bitcoin_height,
    }
}

/// Puts the squash boundaries together.
pub fn squash_targets(
    context: &BurnContext,
    bounds: &TenureBounds,
    snapshot: &BlockSnapshot,
    squash_bitcoin_height: u32,
) -> (targets: CanonicalSquashTargets)
    requires
        context.first_bitcoin_height <= squash_bitcoin_height,
    ensures
        targets == targets_of(*context, *bounds, *snapshot, squash_bitcoin_height),
{
    CanonicalSquashTargets {
        stacks_height: bounds.stacks_height,
        stacks_tip: bounds.start.block_id,
        stacks_tip_consensus_hash: bounds.start.consensus_hash,
        stacks_tip_burn_view_consensus_hash: bounds.burn_view,
        stacks_tip_block_hash: bounds.start.block_hash,
        squash_bitcoin_height,
        sortition_marf_height: squash_bitcoin_height - context.first_bitcoin_height,
        sortition_canonical_tip: context.canonical_tip.sortition_id,
        sortition_boundary_tip: snapshot.sortition_id,
        first_bitcoin_height: context.first_bitcoin_height,
    }
}

/// The chainstate is refused exactly if it could not be opened, with its path and
/// the cause.
pub proof fn chainstate_refusal_is_true<'a>(
    query: SquashTargetQuery<'a>,
    opened: Result<(), String>,
)
    ensures
        chainstate_outcome(query, opened) is Ok <==> opened is Ok,
        chainstate_outcome(query, opened) matches Err(e) ==> {
            &&& e matches SquashTargetError::ChainstateOpen { path, cause }
            &&& path == query.chainstate_root
            &&& opened matches Err(why)
            &&& cause == why
        },
{
}

/// The sortition DB is taken exactly if it was opened and its first height fits
/// in 32 bits, and then at that height; a refusal says which of the two failed.
pub proof fn first_height_is_the_one_read<'a>(
    query: SquashTargetQuery<'a>,
    opened: Result<u64, String>,
)
    ensures
        first_height_outcome(query, opened) is Ok <==> (opened matches Ok(height) && height
            < 0x1_0000_0000),
        first_height_outcome(query, opened) matches Ok(first) ==> opened matches Ok(height)
            && height == first,
        first_height_outcome(query, opened) matches Err(e) ==> match e {
            SquashTargetError::SortitionDbOpen { path, cause } => path == query.sortition_db_dir
                && opened == Err::<u64, _>(cause),
            SquashTargetError::FirstHeightTooLarge { height } => opened == Ok::<_, String>(height)
                && height >= 0x1_0000_0000,
            _ => false,
        },
{
}

/// The read context is anchored on the canonical tip exactly if that was read.
pub proof fn context_is_anchored_on_the_tip<'a>(first: u32, tip: Result<BlockSnapshot, String>)
    ensures
        burn_context_outcome::<'a>(first, tip) matches Ok(context)
            ==> context.first_bitcoin_height == first && tip == Ok::<_, String>(
            context.canonical_tip,
        ),
        burn_context_outcome::<'a>(first, tip) matches Err(e)
            ==> e matches SquashTargetError::BurnTip { cause } && tip == Err::<
            BlockSnapshot,
            _,
        >(cause),
{
}

/// A tenure started exactly where the canonical sortition was read and had a
/// winner; where it had none, no tenure started; and a refusal says how the read
/// failed.
pub proof fn tenure_starts_with_a_sortition<'a>(height: u64, found: Lookup<BlockSnapshot>)
    ensures
        match tenure_start_outcome::<'a>(height, found) {
            Ok(TenureStart::Started(snapshot)) => snapshot.sortition && found == Ok::<_, String>(
                Some(snapshot),
            ),
            Ok(TenureStart::NotStarted) => found matches Ok(Some(snapshot))
                && !snapshot.sortition,
            Err(SquashTargetError::AncestorSnapshot { height: at, cause }) => at == height
                && found == Err::<Option<BlockSnapshot>, _>(cause),
            Err(SquashTargetError::NoStartSortition { height: at }) => at == height && found
                == Ok::<_, String>(None::<BlockSnapshot>),
            Err(_) => false,
        },
{
}

/// The burn block after a height is one above it, and only the highest height of
/// all has none.
pub proof fn next_height_is_one_above<'a>(height: u64)
    ensures
        match next_height_outcome::<'a>(height) {
            Ok(next) => next - height == 1,
            Err(SquashTargetError::NextHeightOverflow { height: at }) => at == height && height
                == 0xffff_ffff_ffff_ffff,
            Err(_) => false,
        },
{
}

/// A tenure is one burn block long exactly if the canonical sortition after its
/// start was read and had a winner; a refusal says what is so instead.
pub proof fn one_burn_block_means_a_sortition_after_it<'a>(
    start_height: u64,
    next_height: u64,
    found: Lookup<BlockSnapshot>,
)
    ensures
        match single_burn_block_outcome::<'a>(start_height, next_height, found) {
            Ok(_) => found matches Ok(Some(next)) && next.sortition,
            Err(SquashTargetError::AncestorSnapshot { height, cause }) => height == next_height
                && found == Err::<Option<BlockSnapshot>, _>(cause),
            Err(SquashTargetError::NoNextSortition { next_height: at }) => at == next_height
                && found == Ok::<_, String>(None::<BlockSnapshot>),
            Err(SquashTargetError::TenureExtends { height, next_height: at }) => {
                &&& height == start_height
                &&& at == next_height
                &&& found matches Ok(Some(next))
                &&& !next.sortition
            },
            Err(_) => false,
        },
{
}

/// The last block is the highest known one, and belongs to the tenure; a refusal
/// says how the read failed, or which two tenures differ.
pub proof fn last_block_belongs_to_the_tenure<'a>(
    start_height: u64,
    tenure: ConsensusHash,
    found: Lookup<StacksHeader>,
)
    ensures
        match tenure_end_outcome::<'a>(start_height, tenure, found) {
            Ok(end) => end.consensus_hash == tenure && found == Ok::<_, String>(Some(end)),
            Err(SquashTargetError::TenureEndLookup { height, cause }) => height == start_height
                && found == Err::<Option<StacksHeader>, _>(cause),
            Err(SquashTargetError::NoNakamotoBlocks { height }) => height == start_height && found
                == Ok::<_, String>(None::<StacksHeader>),
            Err(SquashTargetError::HighestBlockMismatch { tenure: expected, found: other }) => {
                &&& expected == tenure
                &&& other != tenure
                &&& found matches Ok(Some(end))
                &&& end.consensus_hash == other
            },
            Err(_) => false,
        },
{
}

/// A tenure has the burn view that both its first and its last block have; a
/// refusal names the block without one, the first block before the last, or the
/// two that differ.
pub proof fn burn_view_is_that_of_both_blocks<'a>(
    start: StacksHeader,
    end: StacksHeader,
    stacks_height: u32,
)
    ensures
        match burn_view_outcome::<'a>(start, end, stacks_height) {
            Ok(view) => start.burn_view == Some(view) && end.burn_view == Some(view),
            Err(SquashTargetError::StartBurnViewMissing { block_id, stacks_height: at }) => {
                &&& block_id == start.block_id
                &&& at == stacks_height
                &&& start.burn_view is None
            },
            Err(SquashTargetError::EndBurnViewMissing { block_id, height }) => {
                &&& block_id == end.block_id
                &&& height == end.stacks_block_height
                &&& start.burn_view is Some
                &&& end.burn_view is None
            },
            Err(SquashTargetError::BurnViewMismatch { start_id, start_view, end_id, end_view }) => {
                &&& start_id == start.block_id
                &&& end_id == end.block_id
                &&& start.burn_view == Some(start_view)
                &&& end.burn_view == Some(end_view)
                &&& start_view != end_view
            },
            Err(_) => false,
        },
{
}

/// The bounds of a tenure are the two blocks, the Stacks height of the first,
/// which is no higher than the last and fits in 32 bits, and the burn view of
/// both. A refusal names the first of these conditions that fails.
pub proof fn bounds_are_ordered_and_share_a_burn_view<'a>(
    start_height: u64,
    start: StacksHeader,
    end: StacksHeader,
)
    ensures
        match tenure_bounds_outcome::<'a>(start_height, start, end) {
            Ok(bounds) => {
                &&& bounds.start == start
                &&& bounds.end == end
                &&& bounds.stacks_height == start.stacks_block_height
                &&& start.stacks_block_height <= end.stacks_block_height
                &&& start.burn_view == Some(bounds.burn_view)
                &&& end.burn_view == Some(bounds.burn_view)
            },
            Err(
                SquashTargetError::BlockOrder { start_height: first, end_height, bitcoin_height },
            ) => {
                &&& first == start.stacks_block_height
                &&& end_height == end.stacks_block_height
                &&& bitcoin_height == start_height
                &&& first > end_height
            },
            Err(SquashTargetError::StacksHeightTooLarge { height }) => {
                &&& height == start.stacks_block_height
                &&& 0x1_0000_0000 <= height <= end.stacks_block_height
            },
            Err(SquashTargetError::StartBurnViewMissing { block_id, stacks_height }) => {
                &&& block_id == start.block_id
                &&& stacks_height == start.stacks_block_height
                &&& start.stacks_block_height <= end.stacks_block_height
                &&& start.burn_view is None
            },
            Err(SquashTargetError::EndBurnViewMissing { block_id, height }) => {
                &&& block_id == end.block_id
                &&& height == end.stacks_block_height
                &&& start.stacks_block_height <= end.stacks_block_height
                &&& start.stacks_block_height < 0x1_0000_0000
                &&& start.burn_view is Some
                &&& end.burn_view is None
            },
            Err(SquashTargetError::BurnViewMismatch { start_id, start_view, end_id, end_view }) => {
                &&& start_id == start.block_id
                &&& end_id == end.block_id
                &&& start.stacks_block_height <= end.stacks_block_height
                &&& start.stacks_block_height < 0x1_0000_0000
                &&& start.burn_view == Some(start_view)
                &&& end.burn_view == Some(end_view)
                &&& start_view != end_view
            },
            Err(_) => false,
        },
{
}

/// The snapshot of a burn view is the one read; a refusal names the burn view and
/// how the read failed.
pub proof fn burn_view_snapshot_is_the_one_read<'a>(
    burn_view: ConsensusHash,
    found: Lookup<BlockSnapshot>,
)
    ensures
        match burn_view_snapshot_outcome::<'a>(burn_view, found) {
            Ok(snapshot) => found == Ok::<_, String>(Some(snapshot)),
            Err(SquashTargetError::BurnViewLookup { burn_view: view, cause }) => view == burn_view
                && found == Err::<Option<BlockSnapshot>, _>(cause),
            Err(SquashTargetError::NoBurnViewSnapshot { burn_view: view }) => view == burn_view
                && found == Ok::<_, String>(None::<BlockSnapshot>),
            Err(_) => false,
        },
{
}

/// The squash height is that of the snapshot of the burn view, which is the
/// canonical sortition at its height, no lower than the tenure start and the
/// first height of the sortition DB. A refusal names the first of these
/// conditions that fails.
pub proof fn squash_height_is_canonical_and_in_range<'a>(
    burn_view: ConsensusHash,
    snapshot: BlockSnapshot,
    canonical: Lookup<BlockSnapshot>,
    tenure_start: u32,
    first: u32,
)
    ensures
        ({
            let at = snapshot.block_height;
            let on_fork = canonical matches Ok(Some(other)) && other.sortition_id
                == snapshot.sortition_id;
            match squash_height_outcome::<'a>(burn_view, snapshot, canonical, tenure_start, first) {
                Ok(height) => on_fork && height == at && tenure_start <= at && first <= at,
                Err(SquashTargetError::CanonicalAncestor { height, cause }) => height == at
                    && canonical == Err::<Option<BlockSnapshot>, _>(cause),
                Err(SquashTargetError::NoCanonicalAncestor { height, burn_view: view }) => {
                    &&& height == at
                    &&& view == burn_view
                    &&& canonical == Ok::<_, String>(None::<BlockSnapshot>)
                },
                Err(SquashTargetError::OrphanBurnView { burn_view: view, sortition_id, height }) => {
                    &&& view == burn_view
                    &&& sortition_id == snapshot.sortition_id
                    &&& height == at
                    &&& canonical matches Ok(Some(other))
                    &&& other.sortition_id != sortition_id
                },
                Err(SquashTargetError::BurnViewHeightTooLarge { height }) => {
                    &&& on_fork
                    &&& height == at
                    &&& at >= 0x1_0000_0000
                },
                Err(
                    SquashTargetError::BurnViewBeforeTenure {
                        squash_height,
                        tenure_start: required,
                    },
                ) => {
                    &&& on_fork
                    &&& squash_height == at
                    &&& required == tenure_start
                    &&& squash_height < required
                },
                Err(SquashTargetError::BurnViewBeforeFirst { squash_height, first: required }) => {
                    &&& on_fork
                    &&& squash_height == at
                    &&& required == first
                    &&& tenure_start <= squash_height < required
                },
                Err(_) => false,
            }
        }),
{
}

/// The runtime tip is accepted exactly if it was read and has the identifier and
/// the height of the last block and the burn view of the tenure. A refusal names
/// the first of these that differs, with both sides.
pub proof fn runtime_tip_is_the_last_block<'a>(
    snapshot: BlockSnapshot,
    end: StacksHeader,
    burn_view: ConsensusHash,
    found: Lookup<RuntimeTip>,
)
    ensures
        match runtime_tip_outcome::<'a>(snapshot, end, burn_view, found) {
            Ok(_) => {
                &&& found matches Ok(Some(tip))
                &&& tip.block_id == end.block_id
                &&& tip.stacks_block_height == end.stacks_block_height
                &&& tip.burn_view == burn_view
            },
            Err(SquashTargetError::RuntimeTipLookup { sortition_id, cause }) => {
                &&& sortition_id == snapshot.sortition_id
                &&& found == Err::<Option<RuntimeTip>, _>(cause)
            },
            Err(SquashTargetError::NoRuntimeTip { sortition_id }) => {
                &&& sortition_id == snapshot.sortition_id
                &&& found == Ok::<_, String>(None::<RuntimeTip>)
            },
            Err(
                SquashTargetError::RuntimeTipMismatch {
                    sortition_id,
                    runtime_id,
                    runtime_height,
                    end_id,
                    end_height,
                },
            ) => {
                &&& sortition_id == snapshot.sortition_id
                &&& found matches Ok(Some(tip))
                &&& runtime_id == tip.block_id
                &&& runtime_height == tip.stacks_block_height
                &&& end_id == end.block_id
                &&& end_height == end.stacks_block_height
                &&& runtime_id != end_id
            },
            Err(SquashTargetError::RuntimeHeightMismatch { runtime_height, end_height }) => {
                &&& found matches Ok(Some(tip))
                &&& tip.block_id == end.block_id
                &&& runtime_height == tip.stacks_block_height
                &&& end_height == end.stacks_block_height
                &&& runtime_height != end_height
            },
            Err(
                SquashTargetError::RuntimeBurnViewMismatch {
                    runtime_view,
                    burn_view: expected,
                    sortition_id,
                },
            ) => {
                &&& sortition_id == snapshot.sortition_id
                &&& found matches Ok(Some(tip))
                &&& tip.block_id == end.block_id
                &&& tip.stacks_block_height == end.stacks_block_height
                &&& runtime_view == tip.burn_view
                &&& expected == burn_view
                &&& runtime_view != expected
            },
            Err(_) => false,
        },
{
}

/// The boundaries are those of the first block of the tenure and of the sortition
/// of its burn view; counted from the first height of the sortition DB, the MARF
/// height comes to the squash height.
pub proof fn targets_name_the_boundaries(
    context: BurnContext,
    bounds: TenureBounds,
    snapshot: BlockSnapshot,
    squash_bitcoin_height: u32,
)
    requires
        context.first_bitcoin_height <= squash_bitcoin_height,
    ensures
        ({
            let targets = targets_of(context, bounds, snapshot, squash_bitcoin_height);
            &&& targets.stacks_height == bounds.stacks_height
            &&& targets.stacks_tip == bounds.start.block_id
            &&& targets.stacks_tip_consensus_hash == bounds.start.consensus_hash
            &&& targets.stacks_tip_burn_view_consensus_hash == bounds.burn_view
            &&& targets.stacks_tip_block_hash == bounds.start.block_hash
            &&& targets.squash_bitcoin_height == squash_bitcoin_height
            &&& context.first_bitcoin_height + targets.sortition_marf_height
                == squash_bitcoin_height
            &&& targets.sortition_canonical_tip == context.canonical_tip.sortition_id
            &&& targets.sortition_boundary_tip == snapshot.sortition_id
            &&& targets.first_bitcoin_height == context.first_bitcoin_height
        }),
{
}

} // verus!
