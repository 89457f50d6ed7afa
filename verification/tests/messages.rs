use marf_squash::error::SquashTargetError;
use marf_squash::ids::{ConsensusHash, SortitionId, StacksBlockId};

const CH: ConsensusHash = ConsensusHash([0xa1; 20]);
const OTHER_CH: ConsensusHash = ConsensusHash([0xb2; 20]);
const BLOCK: StacksBlockId = StacksBlockId([0xc3; 32]);
const OTHER_BLOCK: StacksBlockId = StacksBlockId([0xd4; 32]);
const SORTITION: SortitionId = SortitionId([0xe5; 32]);

fn ch() -> String {
    "a1".repeat(20)
}

fn other_ch() -> String {
    "b2".repeat(20)
}

fn block() -> String {
    "c3".repeat(32)
}

fn other_block() -> String {
    "d4".repeat(32)
}

fn sortition() -> String {
    "e5".repeat(32)
}

fn cause() -> String {
    "io error".to_string()
}

#[test]
fn messages_on_opening() {
    assert_eq!(
        SquashTargetError::ChainstateOpen { path: "/a", cause: cause() }.message(),
        "Failed to open chainstate at '/a': io error"
    );
    assert_eq!(
        SquashTargetError::SortitionDbOpen { path: "/b", cause: cause() }.message(),
        "Failed to open sortition DB at '/b': io error"
    );
    assert_eq!(
        SquashTargetError::FirstHeightTooLarge { height: 4_294_967_296 }.message(),
        "Sortition first_block_height 4294967296 does not fit in u32"
    );
    assert_eq!(
        SquashTargetError::BurnTip { cause: cause() }.message(),
        "Failed to get canonical burn tip: io error"
    );
}

#[test]
fn messages_on_the_burn_chain() {
    assert_eq!(
        SquashTargetError::AncestorSnapshot { height: 5, cause: cause() }.message(),
        "Failed to get ancestor snapshot at Bitcoin height 5: io error"
    );
    assert_eq!(
        SquashTargetError::NoStartSortition { height: 5 }.message(),
        "No canonical sortition at Bitcoin height 5"
    );
    assert_eq!(
        SquashTargetError::NoTenureStart { height: 5, nearby: vec![] }.message(),
        "Bitcoin height 5 did not start a Nakamoto tenure \
         (sortition=false)."
    );
    assert_eq!(
        SquashTargetError::NextHeightOverflow { height: u64::MAX }.message(),
        "Bitcoin height 18446744073709551615 + 1 overflows u64"
    );
    assert_eq!(
        SquashTargetError::NoNextSortition { next_height: 6 }.message(),
        "No canonical sortition at Bitcoin height 6. The chain has \
         not yet progressed past `tenure_start_bitcoin_height`; pick a boundary \
         that is at least one burn block behind the canonical tip."
    );
    assert_eq!(
        SquashTargetError::TenureExtends { height: 5, next_height: 6 }.message(),
        "Bitcoin height 5 starts a Nakamoto tenure that extends \
         into burn block 6 via a flash block (sortition=false). \
         Refusing to squash: the tenure must be exactly one burn block long. \
         Bump --tenure-start-bitcoin-height to a tenure followed by its own \
         sortition."
    );
}

#[test]
fn messages_on_the_last_block() {
    assert_eq!(
        SquashTargetError::TenureEndLookup { height: 5, cause: cause() }.message(),
        "Failed to find tenure end at Bitcoin height 5: io error"
    );
    assert_eq!(
        SquashTargetError::NoNakamotoBlocks { height: 5 }.message(),
        "No Nakamoto blocks found at Bitcoin height 5. \
         This may predate Nakamoto activation."
    );
    assert_eq!(
        SquashTargetError::HighestBlockMismatch { tenure: CH, found: OTHER_CH }.message(),
        format!(
            "Tenure CH mismatch: tenure-start sortition has CH {}, but \
             highest known block in tenure has CH {}. Likely a re-org between \
             the start sortition and the block headers table.",
            ch(),
            other_ch()
        )
    );
}

#[test]
fn messages_on_the_walk() {
    assert_eq!(
        SquashTargetError::EndHeaderMismatch { tenure: CH, found: OTHER_CH }.message(),
        format!(
            "Tenure CH mismatch: tenure-start sortition has CH {}, but \
             tenure end header has CH {}.",
            ch(),
            other_ch()
        )
    );
    assert_eq!(
        SquashTargetError::ParentLookup { block_id: BLOCK, cause: cause() }.message(),
        format!("Failed to load parent of Nakamoto block {}: io error", block())
    );
    assert_eq!(
        SquashTargetError::NoParentRow { block_id: BLOCK, height: 12 }.message(),
        format!("Nakamoto block {} at height 12 has no parent_block_id row", block())
    );
    assert_eq!(
        SquashTargetError::ParentHeaderLookup { parent_id: BLOCK, cause: cause() }.message(),
        format!("Failed to load parent header {}: io error", block())
    );
    assert_eq!(
        SquashTargetError::MissingParent { block_id: BLOCK, height: 12, parent_id: OTHER_BLOCK }
            .message(),
        format!(
            "Nakamoto block {} at height 12 points to missing parent {}",
            block(),
            other_block()
        )
    );
    assert_eq!(
        SquashTargetError::HeightNotDecreasing {
            parent_id: OTHER_BLOCK,
            parent_height: 13,
            child_id: BLOCK,
            child_height: 12,
        }
        .message(),
        format!(
            "Nakamoto ancestry is not height-decreasing: parent {} height 13 \
             is not below child {} height 12",
            other_block(),
            block()
        )
    );
    assert_eq!(
        SquashTargetError::AncestorNotFound { tenure: CH, height: 12, end_id: BLOCK }.message(),
        format!(
            "Could not find tenure start ancestor for tenure {} before walking \
             12 parent links from {}",
            ch(),
            block()
        )
    );
}

#[test]
fn messages_on_the_tenure() {
    assert_eq!(
        SquashTargetError::BlockOrder { start_height: 13, end_height: 12, bitcoin_height: 5 }
            .message(),
        "Tenure block ordering mismatch: tenure start height 13 is greater \
         than tenure end height 12 at Bitcoin height 5."
    );
    assert_eq!(
        SquashTargetError::StacksHeightTooLarge { height: 4_294_967_296 }.message(),
        "Tenure start Stacks height 4294967296 does not fit in u32"
    );
    assert_eq!(
        SquashTargetError::StartBurnViewMissing { block_id: BLOCK, stacks_height: 10 }.message(),
        format!(
            "Nakamoto tenure start {} (height 10) has no \
             burn_view set. Squash requires a Nakamoto block header with a \
             burn_view.",
            block()
        )
    );
    assert_eq!(
        SquashTargetError::EndBurnViewMissing { block_id: BLOCK, height: 12 }.message(),
        format!(
            "Nakamoto tenure end {} (height 12) has no \
             burn_view set. Squash requires a Nakamoto block header with a \
             burn_view.",
            block()
        )
    );
    assert_eq!(
        SquashTargetError::BurnViewMismatch {
            start_id: BLOCK,
            start_view: CH,
            end_id: OTHER_BLOCK,
            end_view: OTHER_CH,
        }
        .message(),
        format!(
            "Tenure burn_view mismatch: tenure start {} has \
             burn_view {}, but tenure end {} \
             has burn_view {}. Refusing to split the \
             Stacks and sortition squash anchors across different burn views.",
            block(),
            ch(),
            other_block(),
            other_ch()
        )
    );
}

#[test]
fn messages_on_the_burn_view() {
    assert_eq!(
        SquashTargetError::BurnViewLookup { burn_view: CH, cause: cause() }.message(),
        format!("Failed to load snapshot for burn_view {}: io error", ch())
    );
    assert_eq!(
        SquashTargetError::NoBurnViewSnapshot { burn_view: CH }.message(),
        format!("No snapshot found for tenure start's burn_view {}", ch())
    );
    assert_eq!(
        SquashTargetError::CanonicalAncestor { height: 5, cause: cause() }.message(),
        "Failed to get canonical ancestor at Bitcoin height 5: io error"
    );
    assert_eq!(
        SquashTargetError::NoCanonicalAncestor { height: 5, burn_view: CH }.message(),
        format!("No canonical sortition at Bitcoin height 5 (burn_view {})", ch())
    );
    assert_eq!(
        SquashTargetError::OrphanBurnView { burn_view: CH, sortition_id: SORTITION, height: 5 }
            .message(),
        format!(
            "Tenure start's burn_view {} points at sortition_id \
             {} (Bitcoin height 5), which is not on the canonical burn-chain \
             fork. Cowardly refusing to squash a tenure that landed on an \
             orphan burn fork.",
            ch(),
            sortition()
        )
    );
    assert_eq!(
        SquashTargetError::BurnViewHeightTooLarge { height: 4_294_967_296 }.message(),
        "Tenure burn-view Bitcoin height 4294967296 does not fit in u32"
    );
    assert_eq!(
        SquashTargetError::BurnViewBeforeTenure { squash_height: 4, tenure_start: 5 }.message(),
        "Tenure burn-view Bitcoin height 4 is earlier than \
         tenure-start Bitcoin height 5. Refusing to squash."
    );
    assert_eq!(
        SquashTargetError::BurnViewBeforeFirst { squash_height: 4, first: 5 }.message(),
        "Tenure burn-view Bitcoin height 4 is below the \
         sortition DB's first_bitcoin_height 5"
    );
}

#[test]
fn messages_on_the_runtime_tip() {
    assert_eq!(
        SquashTargetError::RuntimeTipLookup { sortition_id: SORTITION, cause: cause() }.message(),
        format!(
            "Failed to resolve runtime canonical Nakamoto tip from boundary \
             snapshot {}: io error",
            sortition()
        )
    );
    assert_eq!(
        SquashTargetError::NoRuntimeTip { sortition_id: SORTITION }.message(),
        format!(
            "Runtime canonical Nakamoto tip resolution returned None from \
             boundary snapshot {}",
            sortition()
        )
    );
    assert_eq!(
        SquashTargetError::RuntimeTipMismatch {
            sortition_id: SORTITION,
            runtime_id: OTHER_BLOCK,
            runtime_height: 13,
            end_id: BLOCK,
            end_height: 12,
        }
        .message(),
        format!(
            "Runtime canonical tip reconstruction mismatch: boundary snapshot \
             {} resolves to StacksBlockId {} \
             at height 13, but the tenure end header is \
             StacksBlockId {} at height 12. The squash boundary \
             would leave the destination internally inconsistent.",
            sortition(),
            other_block(),
            block()
        )
    );
    assert_eq!(
        SquashTargetError::RuntimeHeightMismatch { runtime_height: 13, end_height: 12 }.message(),
        "Runtime canonical tip height mismatch: boundary snapshot resolves \
         to height 13 but tenure tip is at height \
         12"
    );
    assert_eq!(
        SquashTargetError::RuntimeBurnViewMismatch {
            runtime_view: OTHER_CH,
            burn_view: CH,
            sortition_id: SORTITION,
        }
        .message(),
        format!(
            "Runtime canonical tip burn_view mismatch: boundary snapshot \
             resolves to burn_view {} but the tenure \
             burn_view is {}. The sortition DB's \
             `stacks_chain_tips_by_burn_view` row for sortition \
             {} is internally inconsistent.",
            other_ch(),
            ch(),
            sortition()
        )
    );
}
