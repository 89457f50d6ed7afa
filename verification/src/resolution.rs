//! Resolution of the canonical Stacks and sortition boundaries that a squash
//! must anchor on, as a sequence of reads and decisions.
//!
//! [`resolve_canonical_squash_targets`] begins a resolution. As long as
//! [`Resolution::pending`] names a read, the caller performs it on the source
//! databases and hands the answer to [`Resolution::advance`];
//! [`Resolution::into_outcome`] then has the boundaries, or why they were
//! refused.

use crate::chain::{BlockSnapshot, Lookup, RuntimeTip, StacksHeader};
use crate::config::PoxConstants;
use crate::error::SquashTargetError;
use crate::ids::{ConsensusHash, SortitionId, StacksBlockId};
use crate::nearby::{nearby_search_range, search_end, search_start};
use crate::targets::{
    assert_single_burn_block_tenure, burn_context, burn_context_outcome, burn_view_snapshot,
    burn_view_snapshot_outcome, chainstate_outcome, first_height_outcome, next_burn_height,
    next_height_outcome, open_chainstate, open_sortition_db, resolve_squash_burn_view_snapshot,
    resolve_tenure_end_header, resolve_tenure_start_snapshot, runtime_tip_outcome,
    single_burn_block_outcome, squash_height_outcome, squash_targets, targets_of, tenure_bounds,
    tenure_bounds_outcome, tenure_end_outcome, tenure_start_outcome,
    validate_runtime_tip_reconstruction, BurnContext, CanonicalSquashTargets, SquashTargetQuery,
    TenureBounds, TenureStart,
};
use crate::walk::{
    find_tenure_start_ancestor_from_end, walk_outcome, AncestorWalk, WalkStep,
};
use vstd::prelude::*;

verus! {

/// A read of the source databases that a resolution waits for.
#[derive(Debug, Clone, Copy, PartialEq, Eq)]
pub enum Request<'a> {
    /// Open the chainstate.
    OpenChainstate {
        /// Whether it belongs to mainnet.
        mainnet: bool,
        /// Identifier of its chain.
        chain_id: u32,
        /// Its root directory.
        root: &'a str,
    },
    /// Open the sortition DB for reading, and tell its first block height.
    OpenSortitionDb {
        /// Its directory.
        dir: &'a str,
        /// PoX constants of the network.
        pox_constants: PoxConstants,
    },
    /// Read the canonical burn-chain tip.
    CanonicalBurnTip,
    /// Read an ancestor of a sortition.
    AncestorSnapshot {
        /// Bitcoin height of the ancestor.
        height: u64,
        /// The sortition.
        tip: SortitionId,
    },
    /// Read the ancestors of a sortition at each height of a range, from the
    /// lowest to the highest.
    NearbySnapshots {
        /// The lowest height.
        from: u64,
        /// The highest height.
        to: u64,
        /// The sortition.
        tip: SortitionId,
    },
    /// Read the highest known block header in a tenure.
    TenureEndHeader {
        /// Bitcoin height that starts the tenure.
        height: u64,
    },
    /// Read which block is the parent of a Nakamoto block.
    ParentBlockId {
        /// The block.
        block_id: StacksBlockId,
    },
    /// Read a block header.
    BlockHeader {
        /// The block.
        block_id: StacksBlockId,
    },
    /// Read the sortition with a consensus hash.
    SnapshotByConsensusHash {
        /// The consensus hash.
        consensus_hash: ConsensusHash,
    },
    /// Derive the canonical Nakamoto tip from a sortition.
    RuntimeTip {
        /// The sortition.
        snapshot: BlockSnapshot,
    },
}

/// The answer to a [`Request`].
#[derive(Debug, PartialEq, Eq)]
pub enum Reply {
    /// Whether the chainstate was opened.
    Chainstate(Result<(), String>),
    /// The first block height of the sortition DB, once that was opened.
    SortitionDb(Result<u64, String>),
    /// The canonical burn-chain tip.
    BurnTip(Result<BlockSnapshot, String>),
    /// An ancestor of a sortition.
    Ancestor(Lookup<BlockSnapshot>),
    /// The ancestors of a sortition at the heights of a range, each in turn.
    Nearby(Vec<Lookup<BlockSnapshot>>),
    /// The highest known block header in a tenure.
    TenureEnd(Lookup<StacksHeader>),
    /// The parent of a block.
    Parent(Lookup<StacksBlockId>),
    /// A block header.
    Header(Lookup<StacksHeader>),
    /// The sortition with a consensus hash.
    Snapshot(Lookup<BlockSnapshot>),
    /// The canonical Nakamoto tip of a sortition.
    Runtime(Lookup<RuntimeTip>),
}

/// How far a resolution has come.
#[derive(Debug, PartialEq, Eq)]
pub enum Stage<'a> {
    /// Opening the chainstate.
    Chainstate,
    /// Opening the sortition DB.
    SortitionDb,
    /// Reading the canonical burn tip.
    BurnTip {
        /// First Bitcoin block height of the sortition DB.
        first_bitcoin_height: u32,
    },
    /// Reading the sortition at the requested height.
    TenureStart {
        /// The opened sortition DB.
        context: BurnContext,
    },
    /// Looking for tenure starts around a height that has none.
    Nearby {
        /// The opened sortition DB.
        context: BurnContext,
    },
    /// Reading the sortition after the requested height.
    NextSortition {
        /// The opened sortition DB.
        context: BurnContext,
        /// The tenure that the requested height starts.
        tenure: ConsensusHash,
        /// The height after the requested one.
        next_height: u64,
    },
    /// Reading the last block of the tenure.
    TenureEnd {
        /// The opened sortition DB.
        context: BurnContext,
        /// The tenure.
        tenure: ConsensusHash,
    },
    /// Walking back to the first block: reading which block is the parent.
    Parent {
        /// The opened sortition DB.
        context: BurnContext,
        /// The walk.
        walk: AncestorWalk,
    },
    /// Walking back to the first block: reading the header of the parent.
    ParentHeader {
        /// The opened sortition DB.
        context: BurnContext,
        /// The walk.
        walk: AncestorWalk,
        /// The parent.
        parent_id: StacksBlockId,
    },
    /// Reading the sortition of the burn view.
    BurnView {
        /// The opened sortition DB.
        context: BurnContext,
        /// The tenure.
        bounds: TenureBounds,
    },
    /// Reading the canonical sortition at the height of the burn view.
    CanonicalSortition {
        /// The opened sortition DB.
        context: BurnContext,
        /// The tenure.
        bounds: TenureBounds,
        /// The sortition of the burn view.
        snapshot: BlockSnapshot,
    },
    /// Deriving the runtime tip from the boundary.
    RuntimeTip {
        /// The tenure.
        bounds: TenureBounds,
        /// The boundary sortition.
        snapshot: BlockSnapshot,
        /// The boundaries, but for this last check.
        targets: CanonicalSquashTargets,
    },
    /// Nothing is left to do.
    Done(Result<CanonicalSquashTargets, SquashTargetError<'a>>),
}

/// A resolution of the squash boundaries for one query.
#[derive(Debug, PartialEq, Eq)]
pub struct Resolution<'a> {
    /// The query.
    pub query: SquashTargetQuery<'a>,
    /// How far it has come.
    pub stage: Stage<'a>,
}

impl Reply {
    /// Whether the reply is of the kind that `request` asks for.
    pub open spec fn answers<'a>(self, request: Request<'a>) -> bool {
        match request {
            Request::OpenChainstate { .. } => self is Chainstate,
            Request::OpenSortitionDb { .. } => self is SortitionDb,
            Request::CanonicalBurnTip => self is BurnTip,
            Request::AncestorSnapshot { .. } => self is Ancestor,
            Request::NearbySnapshots { .. } => self is Nearby,
            Request::TenureEndHeader { .. } => self is TenureEnd,
            Request::ParentBlockId { .. } => self is Parent,
            Request::BlockHeader { .. } => self is Header,
            Request::SnapshotByConsensusHash { .. } => self is Snapshot,
            Request::RuntimeTip { .. } => self is Runtime,
        }
    }
}

/// The search for tenure starts within ten burn blocks of `start_height`.
pub open spec fn nearby_request<'a>(start_height: u64, tip: SortitionId) -> Request<'a> {
    Request::NearbySnapshots { from: search_start(start_height), to: search_end(start_height), tip }
}

/// The stage after the sortition at the requested height.
pub open spec fn after_tenure_start<'a>(
    start_height: u64,
    context: BurnContext,
    found: Lookup<BlockSnapshot>,
) -> Stage<'a> {
    match tenure_start_outcome(start_height, found) {
        Err(e) => Stage::Done(Err(e)),
        Ok(TenureStart::NotStarted) => Stage::Nearby { context },
        Ok(TenureStart::Started(snapshot)) => match next_height_outcome(
            start_height,
        ) {
            Err(e) => Stage::Done(Err(e)),
            Ok(next_height) => Stage::NextSortition {
                context,
                tenure: snapshot.consensus_hash,
                next_height,
            },
        },
    }
}

/// The stage after the last block of the tenure.
pub open spec fn after_tenure_end<'a>(
    start_height: u64,
    context: BurnContext,
    tenure: ConsensusHash,
    found: Lookup<StacksHeader>,
) -> Stage<'a> {
    match tenure_end_outcome(start_height, tenure, found) {
        Err(e) => Stage::Done(Err(e)),
        Ok(end) => match walk_outcome(tenure, end) {
            Err(e) => Stage::Done(Err(e)),
            Ok(walk) => Stage::Parent { context, walk },
        },
    }
}

/// The stage after the header of a parent.
pub open spec fn after_parent_header<'a>(
    start_height: u64,
    context: BurnContext,
    walk: AncestorWalk,
    parent_id: StacksBlockId,
    found: Lookup<StacksHeader>,
) -> Stage<'a> {
    match walk.step_outcome(parent_id, found) {
        Err(e) => Stage::Done(Err(e)),
        Ok(WalkStep::Onward(walk)) => Stage::Parent { context, walk },
        Ok(WalkStep::Arrived(start)) => match tenure_bounds_outcome(
            start_height,
            start,
            walk.end,
        ) {
            Err(e) => Stage::Done(Err(e)),
            Ok(bounds) => Stage::BurnView { context, bounds },
        },
    }
}

/// The stage after the canonical sortition at the height of the burn view.
pub open spec fn after_canonical_sortition<'a>(
    tenure_start_bitcoin_height: u32,
    context: BurnContext,
    bounds: TenureBounds,
    snapshot: BlockSnapshot,
    found: Lookup<BlockSnapshot>,
) -> Stage<'a> {
    match squash_height_outcome(
        bounds.burn_view,
        snapshot,
        found,
        tenure_start_bitcoin_height,
        context.first_bitcoin_height,
    ) {
        Err(e) => Stage::Done(Err(e)),
        Ok(height) => Stage::RuntimeTip {
            bounds,
            snapshot,
            targets: targets_of(context, bounds, snapshot, height),
        },
    }
}

impl<'a> Resolution<'a> {
    /// The resolution for `query` before anything was read.
    pub open spec fn begun(query: SquashTargetQuery<'a>) -> Self {
        Resolution { query, stage: Stage::Chainstate }
    }

    /// The Bitcoin height that starts the tenure.
    pub open spec fn start_height(self) -> u64 {
        self.query.tenure_start_bitcoin_height as u64
    }

    /// The read that the resolution waits for.
    pub open spec fn awaits(self) -> Option<Request<'a>> {
        match self.stage {
            Stage::Chainstate => Some(
                Request::OpenChainstate {
                    mainnet: self.query.mainnet,
                    chain_id: self.query.chain_id,
                    root: self.query.chainstate_root,
                },
            ),
            Stage::SortitionDb => Some(
                Request::OpenSortitionDb {
                    dir: self.query.sortition_db_dir,
                    pox_constants: self.query.pox_constants,
                },
            ),
            Stage::BurnTip { .. } => Some(Request::CanonicalBurnTip),
            Stage::TenureStart { context } => Some(
                Request::AncestorSnapshot {
                    height: self.start_height(),
                    tip: context.canonical_tip.sortition_id,
                },
            ),
            Stage::Nearby { context } => Some(
                nearby_request(self.start_height(), context.canonical_tip.sortition_id),
            ),
            Stage::NextSortition { context, next_height, .. } => Some(
                Request::AncestorSnapshot {
                    height: next_height,
                    tip: context.canonical_tip.sortition_id,
                },
            ),
            Stage::TenureEnd { .. } => Some(
                Request::TenureEndHeader { height: self.start_height() },
            ),
            Stage::Parent { walk, .. } => Some(
                Request::ParentBlockId { block_id: walk.cursor.block_id },
            ),
            Stage::ParentHeader { parent_id, .. } => Some(
                Request::BlockHeader { block_id: parent_id },
            ),
            Stage::BurnView { bounds, .. } => Some(
                Request::SnapshotByConsensusHash { consensus_hash: bounds.burn_view },
            ),
            Stage::CanonicalSortition { context, snapshot, .. } => Some(
                Request::AncestorSnapshot {
                    height: snapshot.block_height,
                    tip: context.canonical_tip.sortition_id,
                },
            ),
            Stage::RuntimeTip { snapshot, .. } => Some(Request::RuntimeTip { snapshot }),
            Stage::Done(_) => None,
        }
    }

    /// The resolution once `reply` was taken in. A reply of another kind than
    /// the awaited one changes nothing.
    pub open spec fn after(self, reply: Reply) -> Self {
        let stage = match (self.stage, reply) {
            (Stage::Chainstate, Reply::Chainstate(opened)) => {
                match chainstate_outcome(self.query, opened) {
                    Err(e) => Stage::Done(Err(e)),
                    Ok(()) => Stage::SortitionDb,
                }
            },
            (Stage::SortitionDb, Reply::SortitionDb(opened)) => {
                match first_height_outcome(self.query, opened) {
                    Err(e) => Stage::Done(Err(e)),
                    Ok(first_bitcoin_height) => Stage::BurnTip { first_bitcoin_height },
                }
            },
            (Stage::BurnTip { first_bitcoin_height }, Reply::BurnTip(tip)) => {
                match burn_context_outcome(first_bitcoin_height, tip) {
                    Err(e) => Stage::Done(Err(e)),
                    Ok(context) => Stage::TenureStart { context },
                }
            },
            (Stage::TenureStart { context }, Reply::Ancestor(found)) => {
                after_tenure_start(self.start_height(), context, found)
            },
            (Stage::Nearby { .. }, Reply::Nearby(nearby)) => {
                Stage::Done(
                    Err(SquashTargetError::NoTenureStart { height: self.start_height(), nearby }),
                )
            },
            (Stage::NextSortition { context, tenure, next_height }, Reply::Ancestor(found)) => {
                match single_burn_block_outcome(
                    self.start_height(),
                    next_height,
                    found,
                ) {
                    Err(e) => Stage::Done(Err(e)),
                    Ok(()) => Stage::TenureEnd { context, tenure },
                }
            },
            (Stage::TenureEnd { context, tenure }, Reply::TenureEnd(found)) => {
                after_tenure_end(self.start_height(), context, tenure, found)
            },
            (Stage::Parent { context, walk }, Reply::Parent(found)) => {
                match walk.parent_outcome(found) {
                    Err(e) => Stage::Done(Err(e)),
                    Ok(parent_id) => Stage::ParentHeader { context, walk, parent_id },
                }
            },
            (Stage::ParentHeader { context, walk, parent_id }, Reply::Header(found)) => {
                after_parent_header(self.start_height(), context, walk, parent_id, found)
            },
            (Stage::BurnView { context, bounds }, Reply::Snapshot(found)) => {
                match burn_view_snapshot_outcome(bounds.burn_view, found) {
                    Err(e) => Stage::Done(Err(e)),
                    Ok(snapshot) => Stage::CanonicalSortition { context, bounds, snapshot },
                }
            },
            (
                Stage::CanonicalSortition { context, bounds, snapshot },
                Reply::Ancestor(found),
            ) => {
                after_canonical_sortition(
                    self.query.tenure_start_bitcoin_height,
                    context,
                    bounds,
                    snapshot,
                    found,
                )
            },
            (Stage::RuntimeTip { bounds, snapshot, targets }, Reply::Runtime(found)) => {
                match runtime_tip_outcome(
                    snapshot,
                    bounds.end,
                    bounds.burn_view,
                    found,
                ) {
                    Err(e) => Stage::Done(Err(e)),
                    Ok(()) => Stage::Done(Ok(targets)),
                }
            },
            (stage, _) => stage,
        };
        Resolution { query: self.query, stage }
    }

    /// The read to perform next; none once the resolution is done.
    pub fn pending(&self) -> (request: Option<Request<'a>>)
        ensures
            request == self.awaits(),
    {
        let start_height: u64 = self.query.tenure_start_bitcoin_height as u64;
        match &self.stage {
            Stage::Chainstate => Some(
                Request::OpenChainstate {
                    mainnet: self.query.mainnet,
                    chain_id: self.query.chain_id,
                    root: self.query.chainstate_root,
                },
            ),
            Stage::SortitionDb => Some(
                Request::OpenSortitionDb {
                    dir: self.query.sortition_db_dir,
                    pox_constants: self.query.pox_constants,
                },
            ),
            Stage::BurnTip { .. } => Some(Request::CanonicalBurnTip),
            Stage::TenureStart { context } => Some(
                Request::AncestorSnapshot {
                    height: start_height,
                    tip: context.canonical_tip.sortition_id,
                },
            ),
            Stage::Nearby { context } => {
                let (from, to) = nearby_search_range(start_height);
                Some(
                    Request::NearbySnapshots {
                        from,
                        to,
                        tip: context.canonical_tip.sortition_id,
                    },
                )
            },
            Stage::NextSortition { context, next_height, .. } => Some(
                Request::AncestorSnapshot {
                    height: *next_height,
                    tip: context.canonical_tip.sortition_id,
                },
            ),
            Stage::TenureEnd { .. } => Some(Request::TenureEndHeader { height: start_height }),
            Stage::Parent { walk, .. } => Some(
                Request::ParentBlockId { block_id: walk.cursor.block_id },
            ),
            Stage::ParentHeader { parent_id, .. } => Some(
                Request::BlockHeader { block_id: *parent_id },
            ),
            Stage::BurnView { bounds, .. } => Some(
                Request::SnapshotByConsensusHash { consensus_hash: bounds.burn_view },
            ),
            Stage::CanonicalSortition { context, snapshot, .. } => Some(
                Request::AncestorSnapshot {
                    height: snapshot.block_height,
                    tip: context.canonical_tip.sortition_id,
                },
            ),
            Stage::RuntimeTip { snapshot, .. } => Some(Request::RuntimeTip { snapshot: *snapshot }),
            Stage::Done(_) => None,
        }
    }

    /// Takes in the answer to the pending read.
    pub fn advance(self, reply: Reply) -> (next: Self)
        ensures
            next == self.after(reply),
    {
        let query = self.query;
        let start_height: u64 = query.tenure_start_bitcoin_height as u64;
        let stage = match (self.stage, reply) {
            (Stage::Chainstate, Reply::Chainstate(opened)) => match open_chainstate(
                &query,
                opened,
            ) {
                Err(e) => Stage::Done(Err(e)),
                Ok(()) => Stage::SortitionDb,
            },
            (Stage::SortitionDb, Reply::SortitionDb(opened)) => match open_sortition_db(
                &query,
                opened,
            ) {
                Err(e) => Stage::Done(Err(e)),
                Ok(first_bitcoin_height) => Stage::BurnTip { first_bitcoin_height },
            },
            (Stage::BurnTip { first_bitcoin_height }, Reply::BurnTip(tip)) => match burn_context(
                first_bitcoin_height,
                tip,
            ) {
                Err(e) => Stage::Done(Err(e)),
                Ok(context) => Stage::TenureStart { context },
            },
            (
                Stage::TenureStart { context },
                Reply::Ancestor(found),
            ) => match resolve_tenure_start_snapshot(start_height, found) {
                Err(e) => Stage::Done(Err(e)),
                Ok(TenureStart::NotStarted) => Stage::Nearby { context },
                Ok(TenureStart::Started(snapshot)) => match next_burn_height(start_height) {
                    Err(e) => Stage::Done(Err(e)),
                    Ok(next_height) => Stage::NextSortition {
                        context,
                        tenure: snapshot.consensus_hash,
                        next_height,
                    },
                },
            },
            (Stage::Nearby { .. }, Reply::Nearby(nearby)) => Stage::Done(
                Err(SquashTargetError::NoTenureStart { height: start_height, nearby }),
            ),
            (
                Stage::NextSortition { context, tenure, next_height },
                Reply::Ancestor(found),
            ) => match assert_single_burn_block_tenure(start_height, next_height, found) {
                Err(e) => Stage::Done(Err(e)),
                Ok(()) => Stage::TenureEnd { context, tenure },
            },
            (
                Stage::TenureEnd { context, tenure },
                Reply::TenureEnd(found),
            ) => match resolve_tenure_end_header(start_height, &tenure, found) {
                Err(e) => Stage::Done(Err(e)),
                Ok(end) => match find_tenure_start_ancestor_from_end(&tenure, &end) {
                    Err(e) => Stage::Done(Err(e)),
                    Ok(walk) => Stage::Parent { context, walk },
                },
            },
            (Stage::Parent { context, walk }, Reply::Parent(found)) => match walk.parent(found) {
                Err(e) => Stage::Done(Err(e)),
                Ok(parent_id) => Stage::ParentHeader { context, walk, parent_id },
            },
            (
                Stage::ParentHeader { context, walk, parent_id },
                Reply::Header(found),
            ) => match walk.step(parent_id, found) {
                Err(e) => Stage::Done(Err(e)),
                Ok(WalkStep::Onward(walk)) => Stage::Parent { context, walk },
                Ok(WalkStep::Arrived(start)) => match tenure_bounds(
                    start_height,
                    &start,
                    &walk.end,
                ) {
                    Err(e) => Stage::Done(Err(e)),
                    Ok(bounds) => Stage::BurnView { context, bounds },
                },
            },
            (Stage::BurnView { context, bounds }, Reply::Snapshot(found)) => match burn_view_snapshot(
                &bounds.burn_view,
                found,
            ) {
                Err(e) => Stage::Done(Err(e)),
                Ok(snapshot) => Stage::CanonicalSortition { context, bounds, snapshot },
            },
            (
                Stage::CanonicalSortition { context, bounds, snapshot },
                Reply::Ancestor(found),
            ) => match resolve_squash_burn_view_snapshot(
                &bounds.burn_view,
                &snapshot,
                found,
                query.tenure_start_bitcoin_height,
                context.first_bitcoin_height,
            ) {
                Err(e) => Stage::Done(Err(e)),
                Ok(height) => Stage::RuntimeTip {
                    bounds,
                    snapshot,
                    targets: squash_targets(&context, &bounds, &snapshot, height),
                },
            },
            (
                Stage::RuntimeTip { bounds, snapshot, targets },
                Reply::Runtime(found),
            ) => match validate_runtime_tip_reconstruction(
                &snapshot,
                &bounds.end,
                &bounds.burn_view,
                found,
            ) {
                Err(e) => Stage::Done(Err(e)),
                Ok(()) => Stage::Done(Ok(targets)),
            },
            (stage, _) => stage,
        };
        Resolution { query, stage }
    }

    /// The boundaries, or why they were refused; none while a read is pending.
    pub fn into_outcome(self) -> (outcome: Option<
        Result<CanonicalSquashTargets, SquashTargetError<'a>>,
    >)
        ensures
            outcome == match self.stage {
                Stage::Done(outcome) => Some(outcome),
                _ => None,
            },
    {
        match self.stage {
            Stage::Done(outcome) => Some(outcome),
            _ => None,
        }
    }
}

/// Begins to resolve the canonical Stacks and sortition boundaries to squash to
/// from the tenure that starts at `query.tenure_start_bitcoin_height`.
///
/// The resolution requires the tenure to be a single burn block long, its burn
/// view to be canonical and the same at the first and the last block of the
/// tenure, and the boundary to lead back to the last block as the runtime tip.
pub fn resolve_canonical_squash_targets<'a>(query: SquashTargetQuery<'a>) -> (resolution:
    Resolution<'a>)
    ensures
        resolution == Resolution::begun(query),
{
    Resolution { query, stage: Stage::Chainstate }
}

} // verus!
