//! Why a squash boundary was refused.

use crate::chain::{BlockSnapshot, Lookup};
use crate::ids::{ConsensusHash, SortitionId, StacksBlockId};
use crate::nearby::{format_no_tenure_start_error, no_tenure_start_text};
use crate::text::{decimal, decimal_text};
use vstd::prelude::*;

verus! {

/// Each way in which the resolution of the squash boundaries can fail.
#[derive(Debug, PartialEq, Eq)]
pub enum SquashTargetError<'a> {
    /// The source chainstate could not be opened.
    ChainstateOpen {
        /// Where it was looked for.
        path: &'a str,
        /// Why it could not.
        cause: String,
    },
    /// The source sortition DB could not be opened.
    SortitionDbOpen {
        /// Where it was looked for.
        path: &'a str,
        /// Why it could not.
        cause: String,
    },
    /// The first Bitcoin height of the sortition DB exceeds 32 bits.
    FirstHeightTooLarge {
        /// That height.
        height: u64,
    },
    /// The canonical burn tip could not be read.
    BurnTip {
        /// Why it could not.
        cause: String,
    },
    /// A canonical sortition could not be read.
    AncestorSnapshot {
        /// Its Bitcoin height.
        height: u64,
        /// Why it could not.
        cause: String,
    },
    /// The canonical burn chain has no sortition at the requested height.
    NoStartSortition {
        /// The requested Bitcoin height.
        height: u64,
    },
    /// No tenure started at the requested height.
    NoTenureStart {
        /// The requested Bitcoin height.
        height: u64,
        /// The canonical sortitions around it, from the lowest height up.
        nearby: Vec<Lookup<BlockSnapshot>>,
    },
    /// There is no Bitcoin height after the requested one.
    NextHeightOverflow {
        /// The requested Bitcoin height.
        height: u64,
    },
    /// The canonical burn chain ends at the requested height.
    NoNextSortition {
        /// The Bitcoin height that it has yet to reach.
        next_height: u64,
    },
    /// The tenure goes on into the next burn block.
    TenureExtends {
        /// The Bitcoin height that starts the tenure.
        height: u64,
        /// The burn block without a sortition of its own.
        next_height: u64,
    },
    /// The highest block of the tenure could not be looked up.
    TenureEndLookup {
        /// The Bitcoin height that starts the tenure.
        height: u64,
        /// Why it could not.
        cause: String,
    },
    /// The tenure has no Nakamoto block.
    NoNakamotoBlocks {
        /// The Bitcoin height that starts the tenure.
        height: u64,
    },
    /// The highest block belongs to another tenure.
    HighestBlockMismatch {
        /// The tenure that the sortition started.
        tenure: ConsensusHash,
        /// The tenure that the block belongs to.
        found: ConsensusHash,
    },
    /// The header to walk back from belongs to another tenure.
    EndHeaderMismatch {
        /// The tenure to walk through.
        tenure: ConsensusHash,
        /// The tenure that the header belongs to.
        found: ConsensusHash,
    },
    /// The parent of a block could not be looked up.
    ParentLookup {
        /// The block.
        block_id: StacksBlockId,
        /// Why it could not.
        cause: String,
    },
    /// A block has no recorded parent.
    NoParentRow {
        /// The block.
        block_id: StacksBlockId,
        /// Its Stacks height.
        height: u64,
    },
    /// The header of a parent could not be looked up.
    ParentHeaderLookup {
        /// The parent.
        parent_id: StacksBlockId,
        /// Why it could not.
        cause: String,
    },
    /// A block points to a parent that is not there.
    MissingParent {
        /// The block.
        block_id: StacksBlockId,
        /// Its Stacks height.
        height: u64,
        /// The missing parent.
        parent_id: StacksBlockId,
    },
    /// A parent of the same tenure is not below its child.
    HeightNotDecreasing {
        /// The parent.
        parent_id: StacksBlockId,
        /// Its Stacks height.
        parent_height: u64,
        /// The child.
        child_id: StacksBlockId,
        /// Its Stacks height.
        child_height: u64,
    },
    /// The walk back did not leave the tenure in time.
    AncestorNotFound {
        /// The tenure that was walked through.
        tenure: ConsensusHash,
        /// Stacks height of the block that the walk began at.
        height: u64,
        /// The block that the walk began at.
        end_id: StacksBlockId,
    },
    /// The first block of the tenure is above its last.
    BlockOrder {
        /// Stacks height of the first block.
        start_height: u64,
        /// Stacks height of the last block.
        end_height: u64,
        /// The Bitcoin height that starts the tenure.
        bitcoin_height: u64,
    },
    /// The Stacks height of the first block exceeds 32 bits.
    StacksHeightTooLarge {
        /// That height.
        height: u64,
    },
    /// The first block of the tenure has no burn view.
    StartBurnViewMissing {
        /// The block.
        block_id: StacksBlockId,
        /// Its Stacks height.
        stacks_height: u32,
    },
    /// The last block of the tenure has no burn view.
    EndBurnViewMissing {
        /// The block.
        block_id: StacksBlockId,
        /// Its Stacks height.
        height: u64,
    },
    /// The first and the last block of the tenure have different burn views.
    BurnViewMismatch {
        /// The first block.
        start_id: StacksBlockId,
        /// Its burn view.
        start_view: ConsensusHash,
        /// The last block.
        end_id: StacksBlockId,
        /// Its burn view.
        end_view: ConsensusHash,
    },
    /// The snapshot of the burn view could not be read.
    BurnViewLookup {
        /// The burn view.
        burn_view: ConsensusHash,
        /// Why it could not.
        cause: String,
    },
    /// The burn view has no snapshot.
    NoBurnViewSnapshot {
        /// The burn view.
        burn_view: ConsensusHash,
    },
    /// The canonical sortition at the burn view's height could not be read.
    CanonicalAncestor {
        /// That Bitcoin height.
        height: u64,
        /// Why it could not.
        cause: String,
    },
    /// The canonical burn chain has no sortition at the burn view's height.
    NoCanonicalAncestor {
        /// That Bitcoin height.
        height: u64,
        /// The burn view.
        burn_view: ConsensusHash,
    },
    /// The burn view is on another burn-chain fork.
    OrphanBurnView {
        /// The burn view.
        burn_view: ConsensusHash,
        /// Its sortition.
        sortition_id: SortitionId,
        /// Its Bitcoin height.
        height: u64,
    },
    /// The Bitcoin height of the burn view exceeds 32 bits.
    BurnViewHeightTooLarge {
        /// That height.
        height: u64,
    },
    /// The burn view is older than the tenure.
    BurnViewBeforeTenure {
        /// Bitcoin height of the burn view.
        squash_height: u32,
        /// The Bitcoin height that starts the tenure.
        tenure_start: u32,
    },
    /// The burn view is older than the sortition DB.
    BurnViewBeforeFirst {
        /// Bitcoin height of the burn view.
        squash_height: u32,
        /// First Bitcoin height of the sortition DB.
        first: u32,
    },
    /// The runtime tip could not be derived from the boundary snapshot.
    RuntimeTipLookup {
        /// The boundary sortition.
        sortition_id: SortitionId,
        /// Why it could not.
        cause: String,
    },
    /// The boundary snapshot has no runtime tip.
    NoRuntimeTip {
        /// The boundary sortition.
        sortition_id: SortitionId,
    },
    /// The runtime tip is not the last block of the tenure.
    RuntimeTipMismatch {
        /// The boundary sortition.
        sortition_id: SortitionId,
        /// The runtime tip.
        runtime_id: StacksBlockId,
        /// Its Stacks height.
        runtime_height: u64,
        /// The last block of the tenure.
        end_id: StacksBlockId,
        /// Its Stacks height.
        end_height: u64,
    },
    /// The runtime tip has another Stacks height than the last block.
    RuntimeHeightMismatch {
        /// Stacks height of the runtime tip.
        runtime_height: u64,
        /// Stacks height of the last block of the tenure.
        end_height: u64,
    },
    /// The runtime tip has another burn view than the tenure.
    RuntimeBurnViewMismatch {
        /// Burn view of the runtime tip.
        runtime_view: ConsensusHash,
        /// Burn view of the tenure.
        burn_view: ConsensusHash,
        /// The boundary sortition.
        sortition_id: SortitionId,
    },
}

impl<'a> SquashTargetError<'a> {
    /// The message of the error.
    pub open spec fn text(self) -> Seq<char> {
        match self {
            SquashTargetError::ChainstateOpen { path, cause } => {
                "Failed to open chainstate at '"@ + path@ + "': "@ + cause@
            },
            SquashTargetError::SortitionDbOpen { path, cause } => {
                "Failed to open sortition DB at '"@ + path@ + "': "@ + cause@
            },
            SquashTargetError::FirstHeightTooLarge { height } => {
                "Sortition first_block_height "@
                    + decimal_text(height as nat)
                    + " does not fit in u32"@
            },
            SquashTargetError::BurnTip { cause } => {
                "Failed to get canonical burn tip: "@ + cause@
            },
            SquashTargetError::AncestorSnapshot { height, cause } => {
                "Failed to get ancestor snapshot at Bitcoin height "@
                    + decimal_text(height as nat)
                    + ": "@
                    + cause@
            },
            SquashTargetError::NoStartSortition { height } => {
                "No canonical sortition at Bitcoin height "@ + decimal_text(height as nat)
            },
            SquashTargetError::NoTenureStart { height, nearby } => no_tenure_start_text(height, nearby@),
            SquashTargetError::NextHeightOverflow { height } => {
                "Bitcoin height "@ + decimal_text(height as nat) + " + 1 overflows u64"@
            },
            SquashTargetError::NoNextSortition { next_height } => {
                "No canonical sortition at Bitcoin height "@
                    + decimal_text(next_height as nat)
                    + ". The chain has not yet progressed past `tenure_start_bitcoin_height`; pick a boundary that is at least one burn block behind the canonical tip."@
            },
            SquashTargetError::TenureExtends { height, next_height } => {
                "Bitcoin height "@
                    + decimal_text(height as nat)
                    + " starts a Nakamoto tenure that extends into burn block "@
                    + decimal_text(next_height as nat)
                    + " via a flash block (sortition=false). Refusing to squash: the tenure must be exactly one burn block long. Bump --tenure-start-bitcoin-height to a tenure followed by its own sortition."@
            },
            SquashTargetError::TenureEndLookup { height, cause } => {
                "Failed to find tenure end at Bitcoin height "@
                    + decimal_text(height as nat)
                    + ": "@
                    + cause@
            },
            SquashTargetError::NoNakamotoBlocks { height } => {
                "No Nakamoto blocks found at Bitcoin height "@
                    + decimal_text(height as nat)
                    + ". This may predate Nakamoto activation."@
            },
            SquashTargetError::HighestBlockMismatch { tenure, found } => {
                "Tenure CH mismatch: tenure-start sortition has CH "@
                    + tenure.text()
                    + ", but highest known block in tenure has CH "@
                    + found.text()
                    + ". Likely a re-org between the start sortition and the block headers table."@
            },
            SquashTargetError::EndHeaderMismatch { tenure, found } => {
                "Tenure CH mismatch: tenure-start sortition has CH "@
                    + tenure.text()
                    + ", but tenure end header has CH "@
                    + found.text()
                    + "."@
            },
            SquashTargetError::ParentLookup { block_id, cause } => {
                "Failed to load parent of Nakamoto block "@ + block_id.text() + ": "@ + cause@
            },
            SquashTargetError::NoParentRow { block_id, height } => {
                "Nakamoto block "@
                    + block_id.text()
                    + " at height "@
                    + decimal_text(height as nat)
                    + " has no parent_block_id row"@
            },
            SquashTargetError::ParentHeaderLookup { parent_id, cause } => {
                "Failed to load parent header "@ + parent_id.text() + ": "@ + cause@
            },
            SquashTargetError::MissingParent { block_id, height, parent_id } => {
                "Nakamoto block "@
                    + block_id.text()
                    + " at height "@
                    + decimal_text(height as nat)
                    + " points to missing parent "@
                    + parent_id.text()
            },
            SquashTargetError::HeightNotDecreasing {
                parent_id,
                parent_height,
                child_id,
                child_height,
            } => {
                "Nakamoto ancestry is not height-decreasing: parent "@
                    + parent_id.text()
                    + " height "@
                    + decimal_text(parent_height as nat)
                    + " is not below child "@
                    + child_id.text()
                    + " height "@
                    + decimal_text(child_height as nat)
            },
            SquashTargetError::AncestorNotFound { tenure, height, end_id } => {
                "Could not find tenure start ancestor for tenure "@
                    + tenure.text()
                    + " before walking "@
                    + decimal_text(height as nat)
                    + " parent links from "@
                    + end_id.text()
            },
            SquashTargetError::BlockOrder { start_height, end_height, bitcoin_height } => {
                "Tenure block ordering mismatch: tenure start height "@
                    + decimal_text(start_height as nat)
                    + " is greater than tenure end height "@
                    + decimal_text(end_height as nat)
                    + " at Bitcoin height "@
                    + decimal_text(bitcoin_height as nat)
                    + "."@
            },
            SquashTargetError::StacksHeightTooLarge { height } => {
                "Tenure start Stacks height "@
                    + decimal_text(height as nat)
                    + " does not fit in u32"@
            },
            SquashTargetError::StartBurnViewMissing { block_id, stacks_height } => {
                "Nakamoto tenure start "@
                    + block_id.text()
                    + " (height "@
                    + decimal_text(stacks_height as nat)
                    + ") has no burn_view set. Squash requires a Nakamoto block header with a burn_view."@
            },
            SquashTargetError::EndBurnViewMissing { block_id, height } => {
                "Nakamoto tenure end "@
                    + block_id.text()
                    + " (height "@
                    + decimal_text(height as nat)
                    + ") has no burn_view set. Squash requires a Nakamoto block header with a burn_view."@
            },
            SquashTargetError::BurnViewMismatch { start_id, start_view, end_id, end_view } => {
                "Tenure burn_view mismatch: tenure start "@
                    + start_id.text()
                    + " has burn_view "@
                    + start_view.text()
                    + ", but tenure end "@
                    + end_id.text()
                    + " has burn_view "@
                    + end_view.text()
                    + ". Refusing to split the Stacks and sortition squash anchors across different burn views."@
            },
            SquashTargetError::BurnViewLookup { burn_view, cause } => {
                "Failed to load snapshot for burn_view "@ + burn_view.text() + ": "@ + cause@
            },
            SquashTargetError::NoBurnViewSnapshot { burn_view } => {
                "No snapshot found for tenure start's burn_view "@ + burn_view.text()
            },
            SquashTargetError::CanonicalAncestor { height, cause } => {
                "Failed to get canonical ancestor at Bitcoin height "@
                    + decimal_text(height as nat)
                    + ": "@
                    + cause@
            },
            SquashTargetError::NoCanonicalAncestor { height, burn_view } => {
                "No canonical sortition at Bitcoin height "@
                    + decimal_text(height as nat)
                    + " (burn_view "@
                    + burn_view.text()
                    + ")"@
            },
            SquashTargetError::OrphanBurnView { burn_view, sortition_id, height } => {
                "Tenure start's burn_view "@
                    + burn_view.text()
                    + " points at sortition_id "@
                    + sortition_id.text()
                    + " (Bitcoin height "@
                    + decimal_text(height as nat)
                    + "), which is not on the canonical burn-chain fork. Cowardly refusing to squash a tenure that landed on an orphan burn fork."@
            },
            SquashTargetError::BurnViewHeightTooLarge { height } => {
                "Tenure burn-view Bitcoin height "@
                    + decimal_text(height as nat)
                    + " does not fit in u32"@
            },
            SquashTargetError::BurnViewBeforeTenure { squash_height, tenure_start } => {
                "Tenure burn-view Bitcoin height "@
                    + decimal_text(squash_height as nat)
                    + " is earlier than tenure-start Bitcoin height "@
                    + decimal_text(tenure_start as nat)
                    + ". Refusing to squash."@
            },
            SquashTargetError::BurnViewBeforeFirst { squash_height, first } => {
                "Tenure burn-view Bitcoin height "@
                    + decimal_text(squash_height as nat)
                    + " is below the sortition DB's first_bitcoin_height "@
                    + decimal_text(first as nat)
            },
            SquashTargetError::RuntimeTipLookup { sortition_id, cause } => {
                "Failed to resolve runtime canonical Nakamoto tip from boundary snapshot "@
                    + sortition_id.text()
                    + ": "@
                    + cause@
            },
            SquashTargetError::NoRuntimeTip { sortition_id } => {
                "Runtime canonical Nakamoto tip resolution returned None from boundary snapshot "@
                    + sortition_id.text()
            },
            SquashTargetError::RuntimeTipMismatch {
                sortition_id,
                runtime_id,
                runtime_height,
                end_id,
                end_height,
            } => {
                "Runtime canonical tip reconstruction mismatch: boundary snapshot "@
                    + sortition_id.text()
                    + " resolves to StacksBlockId "@
                    + runtime_id.text()
                    + " at height "@
                    + decimal_text(runtime_height as nat)
                    + ", but the tenure end header is StacksBlockId "@
                    + end_id.text()
                    + " at height "@
                    + decimal_text(end_height as nat)
                    + ". The squash boundary would leave the destination internally inconsistent."@
            },
            SquashTargetError::RuntimeHeightMismatch { runtime_height, end_height } => {
                "Runtime canonical tip height mismatch: boundary snapshot resolves to height "@
                    + decimal_text(runtime_height as nat)
                    + " but tenure tip is at height "@
                    + decimal_text(end_height as nat)
            },
            SquashTargetError::RuntimeBurnViewMismatch {
                runtime_view,
                burn_view,
                sortition_id,
            } => {
                "Runtime canonical tip burn_view mismatch: boundary snapshot resolves to burn_view "@
                    + runtime_view.text()
                    + " but the tenure burn_view is "@
                    + burn_view.text()
                    + ". The sortition DB's `stacks_chain_tips_by_burn_view` row for sortition "@
                    + sortition_id.text()
                    + " is internally inconsistent."@
            },
        }
    }

    /// Renders the error for the operator.
    pub fn message(&self) -> (s: String)
        ensures
            s@ == self.text(),
    {
        match self {
            SquashTargetError::ChainstateOpen { path, cause } => {
                String::from_str("Failed to open chainstate at '")
                    .concat(path)
                    .concat("': ")
                    .concat(cause.as_str())
            },
            SquashTargetError::SortitionDbOpen { path, cause } => {
                String::from_str("Failed to open sortition DB at '")
                    .concat(path)
                    .concat("': ")
                    .concat(cause.as_str())
            },
            SquashTargetError::FirstHeightTooLarge { height } => {
                String::from_str("Sortition first_block_height ")
                    .concat(decimal(*height).as_str())
                    .concat(" does not fit in u32")
            },
            SquashTargetError::BurnTip { cause } => {
                String::from_str("Failed to get canonical burn tip: ").concat(cause.as_str())
            },
            SquashTargetError::AncestorSnapshot { height, cause } => {
                String::from_str("Failed to get ancestor snapshot at Bitcoin height ")
                    .concat(decimal(*height).as_str())
                    .concat(": ")
                    .concat(cause.as_str())
            },
            SquashTargetError::NoStartSortition { height } => {
                String::from_str("No canonical sortition at Bitcoin height ")
                    .concat(decimal(*height).as_str())
            },
            SquashTargetError::NoTenureStart { height, nearby } => format_no_tenure_start_error(*height, nearby),
            SquashTargetError::NextHeightOverflow { height } => {
                String::from_str("Bitcoin height ")
                    .concat(decimal(*height).as_str())
                    .concat(" + 1 overflows u64")
            },
            SquashTargetError::NoNextSortition { next_height } => {
                String::from_str("No canonical sortition at Bitcoin height ")
                    .concat(decimal(*next_height).as_str())
                    .concat(". The chain has not yet progressed past `tenure_start_bitcoin_height`; pick a boundary that is at least one burn block behind the canonical tip.")
            },
            SquashTargetError::TenureExtends { height, next_height } => {
                String::from_str("Bitcoin height ")
                    .concat(decimal(*height).as_str())
                    .concat(" starts a Nakamoto tenure that extends into burn block ")
                    .concat(decimal(*next_height).as_str())
                    .concat(" via a flash block (sortition=false). Refusing to squash: the tenure must be exactly one burn block long. Bump --tenure-start-bitcoin-height to a tenure followed by its own sortition.")
            },
            SquashTargetError::TenureEndLookup { height, cause } => {
                String::from_str("Failed to find tenure end at Bitcoin height ")
                    .concat(decimal(*height).as_str())
                    .concat(": ")
                    .concat(cause.as_str())
            },
            SquashTargetError::NoNakamotoBlocks { height } => {
                String::from_str("No Nakamoto blocks found at Bitcoin height ")
                    .concat(decimal(*height).as_str())
                    .concat(". This may predate Nakamoto activation.")
            },
            SquashTargetError::HighestBlockMismatch { tenure, found } => {
                String::from_str("Tenure CH mismatch: tenure-start sortition has CH ")
                    .concat(tenure.to_hex().as_str())
                    .concat(", but highest known block in tenure has CH ")
                    .concat(found.to_hex().as_str())
                    .concat(". Likely a re-org between the start sortition and the block headers table.")
            },
            SquashTargetError::EndHeaderMismatch { tenure, found } => {
                String::from_str("Tenure CH mismatch: tenure-start sortition has CH ")
                    .concat(tenure.to_hex().as_str())
                    .concat(", but tenure end header has CH ")
                    .concat(found.to_hex().as_str())
                    .concat(".")
            },
            SquashTargetError::ParentLookup { block_id, cause } => {
                String::from_str("Failed to load parent of Nakamoto block ")
                    .concat(block_id.to_hex().as_str())
                    .concat(": ")
                    .concat(cause.as_str())
            },
            SquashTargetError::NoParentRow { block_id, height } => {
                String::from_str("Nakamoto block ")
                    .concat(block_id.to_hex().as_str())
                    .concat(" at height ")
                    .concat(decimal(*height).as_str())
                    .concat(" has no parent_block_id row")
            },
            SquashTargetError::ParentHeaderLookup { parent_id, cause } => {
                String::from_str("Failed to load parent header ")
                    .concat(parent_id.to_hex().as_str())
                    .concat(": ")
                    .concat(cause.as_str())
            },
            SquashTargetError::MissingParent { block_id, height, parent_id } => {
                String::from_str("Nakamoto block ")
                    .concat(block_id.to_hex().as_str())
                    .concat(" at height ")
                    .concat(decimal(*height).as_str())
                    .concat(" points to missing parent ")
                    .concat(parent_id.to_hex().as_str())
            },
            SquashTargetError::HeightNotDecreasing {
                parent_id,
                parent_height,
                child_id,
                child_height,
            } => {
                String::from_str("Nakamoto ancestry is not height-decreasing: parent ")
                    .concat(parent_id.to_hex().as_str())
                    .concat(" height ")
                    .concat(decimal(*parent_height).as_str())
                    .concat(" is not below child ")
                    .concat(child_id.to_hex().as_str())
                    .concat(" height ")
                    .concat(decimal(*child_height).as_str())
            },
            SquashTargetError::AncestorNotFound { tenure, height, end_id } => {
                String::from_str("Could not find tenure start ancestor for tenure ")
                    .concat(tenure.to_hex().as_str())
                    .concat(" before walking ")
                    .concat(decimal(*height).as_str())
                    .concat(" parent links from ")
                    .concat(end_id.to_hex().as_str())
            },
            SquashTargetError::BlockOrder { start_height, end_height, bitcoin_height } => {
                String::from_str("Tenure block ordering mismatch: tenure start height ")
                    .concat(decimal(*start_height).as_str())
                    .concat(" is greater than tenure end height ")
                    .concat(decimal(*end_height).as_str())
                    .concat(" at Bitcoin height ")
                    .concat(decimal(*bitcoin_height).as_str())
                    .concat(".")
            },
            SquashTargetError::StacksHeightTooLarge { height } => {
                String::from_str("Tenure start Stacks height ")
                    .concat(decimal(*height).as_str())
                    .concat(" does not fit in u32")
            },
            SquashTargetError::StartBurnViewMissing { block_id, stacks_height } => {
                String::from_str("Nakamoto tenure start ")
                    .concat(block_id.to_hex().as_str())
                    .concat(" (height ")
                    .concat(decimal(*stacks_height as u64).as_str())
                    .concat(") has no burn_view set. Squash requires a Nakamoto block header with a burn_view.")
            },
            SquashTargetError::EndBurnViewMissing { block_id, height } => {
                String::from_str("Nakamoto tenure end ")
                    .concat(block_id.to_hex().as_str())
                    .concat(" (height ")
                    .concat(decimal(*height).as_str())
                    .concat(") has no burn_view set. Squash requires a Nakamoto block header with a burn_view.")
            },
            SquashTargetError::BurnViewMismatch { start_id, start_view, end_id, end_view } => {
                String::from_str("Tenure burn_view mismatch: tenure start ")
                    .concat(start_id.to_hex().as_str())
                    .concat(" has burn_view ")
                    .concat(start_view.to_hex().as_str())
                    .concat(", but tenure end ")
                    .concat(end_id.to_hex().as_str())
                    .concat(" has burn_view ")
                    .concat(end_view.to_hex().as_str())
                    .concat(". Refusing to split the Stacks and sortition squash anchors across different burn views.")
            },
            SquashTargetError::BurnViewLookup { burn_view, cause } => {
                String::from_str("Failed to load snapshot for burn_view ")
                    .concat(burn_view.to_hex().as_str())
                    .concat(": ")
                    .concat(cause.as_str())
            },
            SquashTargetError::NoBurnViewSnapshot { burn_view } => {
                String::from_str("No snapshot found for tenure start's burn_view ")
                    .concat(burn_view.to_hex().as_str())
            },
            SquashTargetError::CanonicalAncestor { height, cause } => {
                String::from_str("Failed to get canonical ancestor at Bitcoin height ")
                    .concat(decimal(*height).as_str())
                    .concat(": ")
                    .concat(cause.as_str())
            },
            SquashTargetError::NoCanonicalAncestor { height, burn_view } => {
                String::from_str("No canonical sortition at Bitcoin height ")
                    .concat(decimal(*height).as_str())
                    .concat(" (burn_view ")
                    .concat(burn_view.to_hex().as_str())
                    .concat(")")
            },
            SquashTargetError::OrphanBurnView { burn_view, sortition_id, height } => {
                String::from_str("Tenure start's burn_view ")
                    .concat(burn_view.to_hex().as_str())
                    .concat(" points at sortition_id ")
                    .concat(sortition_id.to_hex().as_str())
                    .concat(" (Bitcoin height ")
                    .concat(decimal(*height).as_str())
                    .concat("), which is not on the canonical burn-chain fork. Cowardly refusing to squash a tenure that landed on an orphan burn fork.")
            },
            SquashTargetError::BurnViewHeightTooLarge { height } => {
                String::from_str("Tenure burn-view Bitcoin height ")
                    .concat(decimal(*height).as_str())
                    .concat(" does not fit in u32")
            },
            SquashTargetError::BurnViewBeforeTenure { squash_height, tenure_start } => {
                String::from_str("Tenure burn-view Bitcoin height ")
                    .concat(decimal(*squash_height as u64).as_str())
                    .concat(" is earlier than tenure-start Bitcoin height ")
                    .concat(decimal(*tenure_start as u64).as_str())
                    .concat(". Refusing to squash.")
            },
            SquashTargetError::BurnViewBeforeFirst { squash_height, first } => {
                String::from_str("Tenure burn-view Bitcoin height ")
                    .concat(decimal(*squash_height as u64).as_str())
                    .concat(" is below the sortition DB's first_bitcoin_height ")
                    .concat(decimal(*first as u64).as_str())
            },
            SquashTargetError::RuntimeTipLookup { sortition_id, cause } => {
                String::from_str("Failed to resolve runtime canonical Nakamoto tip from boundary snapshot ")
                    .concat(sortition_id.to_hex().as_str())
                    .concat(": ")
                    .concat(cause.as_str())
            },
            SquashTargetError::NoRuntimeTip { sortition_id } => {
                String::from_str("Runtime canonical Nakamoto tip resolution returned None from boundary snapshot ")
                    .concat(sortition_id.to_hex().as_str())
            },
            SquashTargetError::RuntimeTipMismatch {
                sortition_id,
                runtime_id,
                runtime_height,
                end_id,
                end_height,
            } => {
                String::from_str("Runtime canonical tip reconstruction mismatch: boundary snapshot ")
                    .concat(sortition_id.to_hex().as_str())
                    .concat(" resolves to StacksBlockId ")
                    .concat(runtime_id.to_hex().as_str())
                    .concat(" at height ")
                    .concat(decimal(*runtime_height).as_str())
                    .concat(", but the tenure end header is StacksBlockId ")
                    .concat(end_id.to_hex().as_str())
                    .concat(" at height ")
                    .concat(decimal(*end_height).as_str())
                    .concat(". The squash boundary would leave the destination internally inconsistent.")
            },
            SquashTargetError::RuntimeHeightMismatch { runtime_height, end_height } => {
                String::from_str("Runtime canonical tip height mismatch: boundary snapshot resolves to height ")
                    .concat(decimal(*runtime_height).as_str())
                    .concat(" but tenure tip is at height ")
                    .concat(decimal(*end_height).as_str())
            },
            SquashTargetError::RuntimeBurnViewMismatch {
                runtime_view,
                burn_view,
                sortition_id,
            } => {
                String::from_str("Runtime canonical tip burn_view mismatch: boundary snapshot resolves to burn_view ")
                    .concat(runtime_view.to_hex().as_str())
                    .concat(" but the tenure burn_view is ")
                    .concat(burn_view.to_hex().as_str())
                    .concat(". The sortition DB's `stacks_chain_tips_by_burn_view` row for sortition ")
                    .concat(sortition_id.to_hex().as_str())
                    .concat(" is internally inconsistent.")
            },
        }
    }
}

/// The messages on opening the databases are fixed words around the facts that
/// they tell, in the same order whatever the facts are.
pub proof fn opening_messages_quote_their_facts<'a>() -> (words: Seq<Seq<char>>)
    ensures
        forall|path: &'a str, cause: String|
            #[trigger] (SquashTargetError::ChainstateOpen { path, cause }).text() == words[0]
                + path@ + words[1] + cause@,
        forall|path: &'a str, cause: String|
            #[trigger] (SquashTargetError::SortitionDbOpen { path, cause }).text() == words[2]
                + path@ + words[3] + cause@,
        forall|height: u64|
            #[trigger] (SquashTargetError::FirstHeightTooLarge { height }).text() == words[4]
                + decimal_text(height as nat) + words[5],
        forall|cause: String|
            #[trigger] (SquashTargetError::BurnTip { cause }).text() == words[6] + cause@,
{
    seq![
        "Failed to open chainstate at '"@,
        "': "@,
        "Failed to open sortition DB at '"@,
        "': "@,
        "Sortition first_block_height "@,
        " does not fit in u32"@,
        "Failed to get canonical burn tip: "@,
    ]
}

/// The messages on the burn blocks of the tenure are fixed words around the facts that
/// they tell, in the same order whatever the facts are.
pub proof fn tenure_start_messages_quote_their_facts<'a>() -> (words: Seq<Seq<char>>)
    ensures
        forall|height: u64, cause: String|
            #[trigger] (SquashTargetError::AncestorSnapshot { height, cause }).text() == words[0]
                + decimal_text(height as nat) + words[1] + cause@,
        forall|height: u64|
            #[trigger] (SquashTargetError::NoStartSortition { height }).text() == words[2]
                + decimal_text(height as nat),
        forall|height: u64|
            #[trigger] (SquashTargetError::NextHeightOverflow { height }).text() == words[3]
                + decimal_text(height as nat) + words[4],
        forall|next_height: u64|
            #[trigger] (SquashTargetError::NoNextSortition { next_height }).text() == words[5]
                + decimal_text(next_height as nat) + words[6],
        forall|height: u64, next_height: u64|
            #[trigger] (SquashTargetError::TenureExtends { height, next_height }).text()
                == words[7] + decimal_text(height as nat) + words[8]
                + decimal_text(next_height as nat) + words[9],
        forall|height: u64, nearby: Vec<Lookup<BlockSnapshot>>|
            #[trigger] (SquashTargetError::NoTenureStart { height, nearby }).text()
                == no_tenure_start_text(height, nearby@),
{
    seq![
        "Failed to get ancestor snapshot at Bitcoin height "@,
        ": "@,
        "No canonical sortition at Bitcoin height "@,
        "Bitcoin height "@,
        " + 1 overflows u64"@,
        "No canonical sortition at Bitcoin height "@,
        ". The chain has not yet progressed past `tenure_start_bitcoin_height`; pick a boundary that is at least one burn block behind the canonical tip."@,
        "Bitcoin height "@,
        " starts a Nakamoto tenure that extends into burn block "@,
        " via a flash block (sortition=false). Refusing to squash: the tenure must be exactly one burn block long. Bump --tenure-start-bitcoin-height to a tenure followed by its own sortition."@,
    ]
}

/// The messages on the last block of the tenure are fixed words around the facts that
/// they tell, in the same order whatever the facts are.
pub proof fn tenure_end_messages_quote_their_facts<'a>() -> (words: Seq<Seq<char>>)
    ensures
        forall|height: u64, cause: String|
            #[trigger] (SquashTargetError::TenureEndLookup { height, cause }).text() == words[0]
                + decimal_text(height as nat) + words[1] + cause@,
        forall|height: u64|
            #[trigger] (SquashTargetError::NoNakamotoBlocks { height }).text() == words[2]
                + decimal_text(height as nat) + words[3],
        forall|tenure: ConsensusHash, found: ConsensusHash|
            #[trigger] (SquashTargetError::HighestBlockMismatch { tenure, found }).text()
                == words[4] + tenure.text() + words[5] + found.text() + words[6],
        forall|tenure: ConsensusHash, found: ConsensusHash|
            #[trigger] (SquashTargetError::EndHeaderMismatch { tenure, found }).text() == words[7]
                + tenure.text() + words[8] + found.text() + words[9],
{
    seq![
        "Failed to find tenure end at Bitcoin height "@,
        ": "@,
        "No Nakamoto blocks found at Bitcoin height "@,
        ". This may predate Nakamoto activation."@,
        "Tenure CH mismatch: tenure-start sortition has CH "@,
        ", but highest known block in tenure has CH "@,
        ". Likely a re-org between the start sortition and the block headers table."@,
        "Tenure CH mismatch: tenure-start sortition has CH "@,
        ", but tenure end header has CH "@,
        "."@,
    ]
}

/// The messages on the walk back to the first block are fixed words around the facts that
/// they tell, in the same order whatever the facts are.
pub proof fn walk_messages_quote_their_facts<'a>() -> (words: Seq<Seq<char>>)
    ensures
        forall|block_id: StacksBlockId, cause: String|
            #[trigger] (SquashTargetError::ParentLookup { block_id, cause }).text() == words[0]
                + block_id.text() + words[1] + cause@,
        forall|block_id: StacksBlockId, height: u64|
            #[trigger] (SquashTargetError::NoParentRow { block_id, height }).text() == words[2]
                + block_id.text() + words[3] + decimal_text(height as nat) + words[4],
        forall|parent_id: StacksBlockId, cause: String|
            #[trigger] (SquashTargetError::ParentHeaderLookup { parent_id, cause }).text()
                == words[5] + parent_id.text() + words[6] + cause@,
        forall|block_id: StacksBlockId, height: u64, parent_id: StacksBlockId|
            #[trigger] (SquashTargetError::MissingParent { block_id, height, parent_id }).text()
                == words[7] + block_id.text() + words[8] + decimal_text(height as nat) + words[9]
                + parent_id.text(),
        forall|
            parent_id: StacksBlockId,
            parent_height: u64,
            child_id: StacksBlockId,
            child_height: u64,
        |
            #[trigger] (SquashTargetError::HeightNotDecreasing {
                parent_id,
                parent_height,
                child_id,
                child_height,
            }).text() == words[10] + parent_id.text() + words[11]
                + decimal_text(parent_height as nat) + words[12] + child_id.text() + words[13]
                + decimal_text(child_height as nat),
        forall|tenure: ConsensusHash, height: u64, end_id: StacksBlockId|
            #[trigger] (SquashTargetError::AncestorNotFound { tenure, height, end_id }).text()
                == words[14] + tenure.text() + words[15] + decimal_text(height as nat) + words[16]
                + end_id.text(),
{
    seq![
        "Failed to load parent of Nakamoto block "@,
        ": "@,
        "Nakamoto block "@,
        " at height "@,
        " has no parent_block_id row"@,
        "Failed to load parent header "@,
        ": "@,
        "Nakamoto block "@,
        " at height "@,
        " points to missing parent "@,
        "Nakamoto ancestry is not height-decreasing: parent "@,
        " height "@,
        " is not below child "@,
        " height "@,
        "Could not find tenure start ancestor for tenure "@,
        " before walking "@,
        " parent links from "@,
    ]
}

/// The messages on the first and the last block are fixed words around the facts that
/// they tell, in the same order whatever the facts are.
pub proof fn bounds_messages_quote_their_facts<'a>() -> (words: Seq<Seq<char>>)
    ensures
        forall|start_height: u64, end_height: u64, bitcoin_height: u64|
            #[trigger] (SquashTargetError::BlockOrder {
                start_height,
                end_height,
                bitcoin_height,
            }).text() == words[0] + decimal_text(start_height as nat) + words[1]
                + decimal_text(end_height as nat) + words[2] + decimal_text(bitcoin_height as nat)
                + words[3],
        forall|height: u64|
            #[trigger] (SquashTargetError::StacksHeightTooLarge { height }).text() == words[4]
                + decimal_text(height as nat) + words[5],
        forall|block_id: StacksBlockId, stacks_height: u32|
            #[trigger] (SquashTargetError::StartBurnViewMissing { block_id, stacks_height }).text()
                == words[6] + block_id.text() + words[7] + decimal_text(stacks_height as nat)
                + words[8],
        forall|block_id: StacksBlockId, height: u64|
            #[trigger] (SquashTargetError::EndBurnViewMissing { block_id, height }).text()
                == words[9] + block_id.text() + words[10] + decimal_text(height as nat)
                + words[11],
        forall|
            start_id: StacksBlockId,
            start_view: ConsensusHash,
            end_id: StacksBlockId,
            end_view: ConsensusHash,
        |
            #[trigger] (SquashTargetError::BurnViewMismatch {
                start_id,
                start_view,
                end_id,
                end_view,
            }).text() == words[12] + start_id.text() + words[13] + start_view.text() + words[14]
                + end_id.text() + words[15] + end_view.text() + words[16],
{
    seq![
        "Tenure block ordering mismatch: tenure start height "@,
        " is greater than tenure end height "@,
        " at Bitcoin height "@,
        "."@,
        "Tenure start Stacks height "@,
        " does not fit in u32"@,
        "Nakamoto tenure start "@,
        " (height "@,
        ") has no burn_view set. Squash requires a Nakamoto block header with a burn_view."@,
        "Nakamoto tenure end "@,
        " (height "@,
        ") has no burn_view set. Squash requires a Nakamoto block header with a burn_view."@,
        "Tenure burn_view mismatch: tenure start "@,
        " has burn_view "@,
        ", but tenure end "@,
        " has burn_view "@,
        ". Refusing to split the Stacks and sortition squash anchors across different burn views."@,
    ]
}

/// The messages on the burn view of the tenure are fixed words around the facts that
/// they tell, in the same order whatever the facts are.
pub proof fn burn_view_messages_quote_their_facts<'a>() -> (words: Seq<Seq<char>>)
    ensures
        forall|burn_view: ConsensusHash, cause: String|
            #[trigger] (SquashTargetError::BurnViewLookup { burn_view, cause }).text() == words[0]
                + burn_view.text() + words[1] + cause@,
        forall|burn_view: ConsensusHash|
            #[trigger] (SquashTargetError::NoBurnViewSnapshot { burn_view }).text() == words[2]
                + burn_view.text(),
        forall|height: u64, cause: String|
            #[trigger] (SquashTargetError::CanonicalAncestor { height, cause }).text() == words[3]
                + decimal_text(height as nat) + words[4] + cause@,
        forall|height: u64, burn_view: ConsensusHash|
            #[trigger] (SquashTargetError::NoCanonicalAncestor { height, burn_view }).text()
                == words[5] + decimal_text(height as nat) + words[6] + burn_view.text() + words[7],
        forall|burn_view: ConsensusHash, sortition_id: SortitionId, height: u64|
            #[trigger] (SquashTargetError::OrphanBurnView {
                burn_view,
                sortition_id,
                height,
            }).text() == words[8] + burn_view.text() + words[9] + sortition_id.text() + words[10]
                + decimal_text(height as nat) + words[11],
        forall|height: u64|
            #[trigger] (SquashTargetError::BurnViewHeightTooLarge { height }).text() == words[12]
                + decimal_text(height as nat) + words[13],
        forall|squash_height: u32, tenure_start: u32|
            #[trigger] (SquashTargetError::BurnViewBeforeTenure {
                squash_height,
                tenure_start,
            }).text() == words[14] + decimal_text(squash_height as nat) + words[15]
                + decimal_text(tenure_start as nat) + words[16],
        forall|squash_height: u32, first: u32|
            #[trigger] (SquashTargetError::BurnViewBeforeFirst { squash_height, first }).text()
                == words[17] + decimal_text(squash_height as nat) + words[18]
                + decimal_text(first as nat),
{
    seq![
        "Failed to load snapshot for burn_view "@,
        ": "@,
        "No snapshot found for tenure start's burn_view "@,
        "Failed to get canonical ancestor at Bitcoin height "@,
        ": "@,
        "No canonical sortition at Bitcoin height "@,
        " (burn_view "@,
        ")"@,
        "Tenure start's burn_view "@,
        " points at sortition_id "@,
        " (Bitcoin height "@,
        "), which is not on the canonical burn-chain fork. Cowardly refusing to squash a tenure that landed on an orphan burn fork."@,
        "Tenure burn-view Bitcoin height "@,
        " does not fit in u32"@,
        "Tenure burn-view Bitcoin height "@,
        " is earlier than tenure-start Bitcoin height "@,
        ". Refusing to squash."@,
        "Tenure burn-view Bitcoin height "@,
        " is below the sortition DB's first_bitcoin_height "@,
    ]
}

/// The messages on the runtime tip are fixed words around the facts that
/// they tell, in the same order whatever the facts are.
pub proof fn runtime_tip_messages_quote_their_facts<'a>() -> (words: Seq<Seq<char>>)
    ensures
        forall|sortition_id: SortitionId, cause: String|
            #[trigger] (SquashTargetError::RuntimeTipLookup { sortition_id, cause }).text()
                == words[0] + sortition_id.text() + words[1] + cause@,
        forall|sortition_id: SortitionId|
            #[trigger] (SquashTargetError::NoRuntimeTip { sortition_id }).text() == words[2]
                + sortition_id.text(),
        forall|
            sortition_id: SortitionId,
            runtime_id: StacksBlockId,
            runtime_height: u64,
            end_id: StacksBlockId,
            end_height: u64,
        |
            #[trigger] (SquashTargetError::RuntimeTipMismatch {
                sortition_id,
                runtime_id,
                runtime_height,
                end_id,
                end_height,
            }).text() == words[3] + sortition_id.text() + words[4] + runtime_id.text() + words[5]
                + decimal_text(runtime_height as nat) + words[6] + end_id.text() + words[7]
                + decimal_text(end_height as nat) + words[8],
        forall|runtime_height: u64, end_height: u64|
            #[trigger] (SquashTargetError::RuntimeHeightMismatch {
                runtime_height,
                end_height,
            }).text() == words[9] + decimal_text(runtime_height as nat) + words[10]
                + decimal_text(end_height as nat),
        forall|runtime_view: ConsensusHash, burn_view: ConsensusHash, sortition_id: SortitionId|
            #[trigger] (SquashTargetError::RuntimeBurnViewMismatch {
                runtime_view,
                burn_view,
                sortition_id,
            }).text() == words[11] + runtime_view.text() + words[12] + burn_view.text()
                + words[13] + sortition_id.text() + words[14],
{
    seq![
        "Failed to resolve runtime canonical Nakamoto tip from boundary snapshot "@,
        ": "@,
        "Runtime canonical Nakamoto tip resolution returned None from boundary snapshot "@,
        "Runtime canonical tip reconstruction mismatch: boundary snapshot "@,
        " resolves to StacksBlockId "@,
        " at height "@,
        ", but the tenure end header is StacksBlockId "@,
        " at height "@,
        ". The squash boundary would leave the destination internally inconsistent."@,
        "Runtime canonical tip height mismatch: boundary snapshot resolves to height "@,
        " but tenure tip is at height "@,
        "Runtime canonical tip burn_view mismatch: boundary snapshot resolves to burn_view "@,
        " but the tenure burn_view is "@,
        ". The sortition DB's `stacks_chain_tips_by_burn_view` row for sortition "@,
        " is internally inconsistent."@,
    ]
}

} // verus!
