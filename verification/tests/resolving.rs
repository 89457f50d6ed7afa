use marf_squash::chain::{BlockSnapshot, Lookup, RuntimeTip, StacksHeader};
use marf_squash::config::PoxConstants;
use marf_squash::error::SquashTargetError;
use marf_squash::ids::{BlockHeaderHash, ConsensusHash, SortitionId, StacksBlockId};
use marf_squash::resolution::{resolve_canonical_squash_targets, Reply, Request, Resolution};
use marf_squash::targets::{CanonicalSquashTargets, SquashTargetQuery};

const START: u64 = 880_000;
const TENURE: ConsensusHash = ConsensusHash([0x11; 20]);
const OLDER: ConsensusHash = ConsensusHash([0x22; 20]);
const VIEW: ConsensusHash = ConsensusHash([0x33; 20]);
const TIP: SortitionId = SortitionId([0x44; 32]);

fn query() -> SquashTargetQuery<'static> {
    SquashTargetQuery {
        chainstate_root: "/data/chainstate",
        sortition_db_dir: "/data/sortition",
        tenure_start_bitcoin_height: 880_000,
        mainnet: true,
        chain_id: 1,
        pox_constants: PoxConstants {
            reward_cycle_length: 2100,
            prepare_length: 100,
            sunset_start: 1,
            sunset_end: 2,
            v1_unlock_height: 3,
        },
    }
}

fn sortition_id(height: u64) -> SortitionId {
    let mut bytes = [0x55u8; 32];
    bytes[24..].copy_from_slice(&height.to_be_bytes());
    SortitionId(bytes)
}

fn snapshot(block_height: u64, consensus_hash: ConsensusHash, sortition: bool) -> BlockSnapshot {
    BlockSnapshot { block_height, sortition_id: sortition_id(block_height), consensus_hash, sortition }
}

fn block_id(height: u64) -> StacksBlockId {
    StacksBlockId([height as u8; 32])
}

fn header(height: u64, consensus_hash: ConsensusHash) -> StacksHeader {
    StacksHeader {
        block_id: block_id(height),
        consensus_hash,
        block_hash: BlockHeaderHash([height as u8 + 100; 32]),
        stacks_block_height: height,
        burn_view: Some(VIEW),
    }
}

fn tip() -> BlockSnapshot {
    BlockSnapshot {
        block_height: 900_000,
        sortition_id: TIP,
        consensus_hash: ConsensusHash([0x66; 20]),
        sortition: true,
    }
}

/// A tenure of three blocks at Stacks heights 10, 11 and 12, on a chain whose
/// every burn block has a sortition. One answer can be replaced.
fn answer(request: &Request<'static>) -> Reply {
    match *request {
        Request::OpenChainstate { mainnet, chain_id, root } => {
            assert!(mainnet);
            assert_eq!(chain_id, 1);
            assert_eq!(root, "/data/chainstate");
            Reply::Chainstate(Ok(()))
        }
        Request::OpenSortitionDb { dir, pox_constants } => {
            assert_eq!(dir, "/data/sortition");
            assert_eq!(pox_constants, query().pox_constants);
            Reply::SortitionDb(Ok(666_050))
        }
        Request::CanonicalBurnTip => Reply::BurnTip(Ok(tip())),
        Request::AncestorSnapshot { height, tip } => {
            assert_eq!(tip, TIP);
            Reply::Ancestor(Ok(Some(canonical(height))))
        }
        Request::NearbySnapshots { from, to, tip } => {
            assert_eq!(tip, TIP);
            Reply::Nearby((from..=to).map(|h| Ok(Some(canonical(h)))).collect())
        }
        Request::TenureEndHeader { height } => {
            assert_eq!(height, START);
            Reply::TenureEnd(Ok(Some(header(12, TENURE))))
        }
        Request::ParentBlockId { block_id: id } => {
            Reply::Parent(Ok(Some(block_id(u64::from(id.0[0]) - 1))))
        }
        Request::BlockHeader { block_id: id } => {
            let height = u64::from(id.0[0]);
            Reply::Header(Ok(Some(header(height, if height < 10 { OLDER } else { TENURE }))))
        }
        Request::SnapshotByConsensusHash { consensus_hash } => {
            assert_eq!(consensus_hash, VIEW);
            Reply::Snapshot(Ok(Some(snapshot(START, VIEW, true))))
        }
        Request::RuntimeTip { snapshot } => {
            assert_eq!(snapshot.sortition_id, sortition_id(START));
            Reply::Runtime(Ok(Some(runtime())))
        }
    }
}

fn canonical(height: u64) -> BlockSnapshot {
    snapshot(height, if height == START { TENURE } else { ConsensusHash([0x77; 20]) }, true)
}

fn runtime() -> RuntimeTip {
    RuntimeTip { block_id: block_id(12), burn_view: VIEW, stacks_block_height: 12 }
}

fn resolve_with<F: Fn(&Request<'static>) -> Option<Reply>>(
    instead: F,
) -> Result<CanonicalSquashTargets, SquashTargetError<'static>> {
    let mut resolution = resolve_canonical_squash_targets(query());
    while let Some(request) = resolution.pending() {
        let reply = instead(&request).unwrap_or_else(|| answer(&request));
        resolution = resolution.advance(reply);
    }
    resolution.into_outcome().unwrap()
}

fn refusal<F: Fn(&Request<'static>) -> Option<Reply>>(instead: F) -> SquashTargetError<'static> {
    resolve_with(instead).unwrap_err()
}

fn lost<T>() -> Lookup<T> {
    Err("disk".to_string())
}

fn cause() -> String {
    "disk".to_string()
}

/// Replaces the sortition at one height.
fn sortition_instead(
    request: &Request<'static>,
    at: u64,
    found: Lookup<BlockSnapshot>,
) -> Option<Reply> {
    match *request {
        Request::AncestorSnapshot { height, .. } if height == at => Some(Reply::Ancestor(found)),
        _ => None,
    }
}

#[test]
fn squashable_tenure_gives_its_boundaries() {
    assert_eq!(
        resolve_with(|_| None),
        Ok(CanonicalSquashTargets {
            stacks_height: 10,
            stacks_tip: block_id(10),
            stacks_tip_consensus_hash: TENURE,
            stacks_tip_burn_view_consensus_hash: VIEW,
            stacks_tip_block_hash: BlockHeaderHash([110; 32]),
            squash_bitcoin_height: 880_000,
            sortition_marf_height: 213_950,
            sortition_canonical_tip: TIP,
            sortition_boundary_tip: sortition_id(START),
            first_bitcoin_height: 666_050,
        })
    );
}

#[test]
fn reads_come_in_order_and_within_the_bound() {
    let mut asked: Vec<Request<'static>> = Vec::new();
    let mut resolution = resolve_canonical_squash_targets(query());
    while let Some(request) = resolution.pending() {
        asked.push(request);
        resolution = resolution.advance(answer(&request));
    }
    assert_eq!(
        asked,
        vec![
            Request::OpenChainstate { mainnet: true, chain_id: 1, root: "/data/chainstate" },
            Request::OpenSortitionDb {
                dir: "/data/sortition",
                pox_constants: query().pox_constants
            },
            Request::CanonicalBurnTip,
            Request::AncestorSnapshot { height: START, tip: TIP },
            Request::AncestorSnapshot { height: START + 1, tip: TIP },
            Request::TenureEndHeader { height: START },
            Request::ParentBlockId { block_id: block_id(12) },
            Request::BlockHeader { block_id: block_id(11) },
            Request::ParentBlockId { block_id: block_id(11) },
            Request::BlockHeader { block_id: block_id(10) },
            Request::ParentBlockId { block_id: block_id(10) },
            Request::BlockHeader { block_id: block_id(9) },
            Request::SnapshotByConsensusHash { consensus_hash: VIEW },
            Request::AncestorSnapshot { height: START, tip: TIP },
            Request::RuntimeTip { snapshot: snapshot(START, VIEW, true) },
        ]
    );
    assert!(asked.len() <= 9 + 2 * (12 + 1));
}

#[test]
fn tenure_of_one_block_starts_where_it_ends() {
    let targets = resolve_with(|request| match *request {
        Request::TenureEndHeader { .. } => {
            Some(Reply::TenureEnd(Ok(Some(header(10, TENURE)))))
        }
        Request::RuntimeTip { .. } => Some(Reply::Runtime(Ok(Some(RuntimeTip {
            block_id: block_id(10),
            burn_view: VIEW,
            stacks_block_height: 10,
        })))),
        _ => None,
    });
    assert_eq!(targets.unwrap().stacks_height, 10);
}

#[test]
fn unasked_reply_leaves_the_resolution() {
    let begun = resolve_canonical_squash_targets(query());
    let still = begun.advance(Reply::BurnTip(Ok(tip())));
    assert_eq!(still, resolve_canonical_squash_targets(query()));

    let mut done = resolve_canonical_squash_targets(query());
    while let Some(request) = done.pending() {
        done = done.advance(answer(&request));
    }
    let after = done.advance(Reply::Chainstate(Err(cause())));
    assert_eq!(after.pending(), None);
    assert_eq!(after.into_outcome(), Some(resolve_with(|_| None)));
}

#[test]
fn outcome_is_there_once_nothing_is_pending() {
    let begun: Resolution = resolve_canonical_squash_targets(query());
    assert_eq!(begun.into_outcome(), None);
}

#[test]
fn databases_must_open() {
    assert_eq!(
        refusal(|r| match r {
            Request::OpenChainstate { .. } => Some(Reply::Chainstate(Err(cause()))),
            _ => None,
        }),
        SquashTargetError::ChainstateOpen { path: "/data/chainstate", cause: cause() }
    );
    assert_eq!(
        refusal(|r| match r {
            Request::OpenSortitionDb { .. } => Some(Reply::SortitionDb(Err(cause()))),
            _ => None,
        }),
        SquashTargetError::SortitionDbOpen { path: "/data/sortition", cause: cause() }
    );
    assert_eq!(
        refusal(|r| match r {
            Request::OpenSortitionDb { .. } => Some(Reply::SortitionDb(Ok(4_294_967_296))),
            _ => None,
        }),
        SquashTargetError::FirstHeightTooLarge { height: 4_294_967_296 }
    );
    assert_eq!(
        refusal(|r| match r {
            Request::CanonicalBurnTip => Some(Reply::BurnTip(Err(cause()))),
            _ => None,
        }),
        SquashTargetError::BurnTip { cause: cause() }
    );
}

#[test]
fn requested_height_must_have_a_sortition() {
    assert_eq!(
        refusal(|r| sortition_instead(r, START, lost())),
        SquashTargetError::AncestorSnapshot { height: START, cause: cause() }
    );
    assert_eq!(
        refusal(|r| sortition_instead(r, START, Ok(None))),
        SquashTargetError::NoStartSortition { height: START }
    );
}

#[test]
fn height_without_a_tenure_is_refused_with_a_hint() {
    let refused = refusal(|request| match *request {
        Request::NearbySnapshots { from, to, .. } => {
            assert_eq!((from, to), (879_990, 880_010));
            let found = (from..=to)
                .map(|h| match h {
                    879_990 | 880_000 | 880_003 => Ok(Some(snapshot(h, VIEW, true))),
                    879_991 => Ok(None),
                    879_992 => lost(),
                    880_010 => Ok(Some(snapshot(h, VIEW, true))),
                    _ => Ok(Some(snapshot(h, VIEW, false))),
                })
                .collect();
            Some(Reply::Nearby(found))
        }
        _ => sortition_instead(request, START, Ok(Some(snapshot(START, TENURE, false)))),
    });
    assert_eq!(
        refused.message(),
        "Bitcoin height 880000 did not start a Nakamoto tenure \
         (sortition=false).\n  Nearby tenure starts: 879990, 880003, 880010"
    );
}

#[test]
fn height_without_a_tenure_may_have_no_hint() {
    let refused = refusal(|request| match *request {
        Request::NearbySnapshots { from, to, .. } => {
            Some(Reply::Nearby((from..=to).map(|_| Ok(None)).collect()))
        }
        _ => sortition_instead(request, START, Ok(Some(snapshot(START, TENURE, false)))),
    });
    assert_eq!(
        refused.message(),
        "Bitcoin height 880000 did not start a Nakamoto tenure (sortition=false)."
    );
}

#[test]
fn tenure_must_be_one_burn_block_long() {
    assert_eq!(
        refusal(|r| sortition_instead(r, START + 1, lost())),
        SquashTargetError::AncestorSnapshot { height: START + 1, cause: cause() }
    );
    assert_eq!(
        refusal(|r| sortition_instead(r, START + 1, Ok(None))),
        SquashTargetError::NoNextSortition { next_height: START + 1 }
    );
    assert_eq!(
        refusal(|r| sortition_instead(r, START + 1, Ok(Some(snapshot(START + 1, VIEW, false))))),
        SquashTargetError::TenureExtends { height: START, next_height: START + 1 }
    );
}

#[test]
fn last_block_must_belong_to_the_tenure() {
    let end = |found: Lookup<StacksHeader>| {
        let cell = std::cell::RefCell::new(Some(found));
        refusal(move |r| match r {
            Request::TenureEndHeader { .. } => {
                Some(Reply::TenureEnd(cell.borrow_mut().take().unwrap()))
            }
            _ => None,
        })
    };
    assert_eq!(
        end(lost()),
        SquashTargetError::TenureEndLookup { height: START, cause: cause() }
    );
    assert_eq!(end(Ok(None)), SquashTargetError::NoNakamotoBlocks { height: START });
    assert_eq!(
        end(Ok(Some(header(12, OLDER)))),
        SquashTargetError::HighestBlockMismatch { tenure: TENURE, found: OLDER }
    );
}

#[test]
fn every_parent_must_be_known() {
    let parent = |found: fn() -> Lookup<StacksBlockId>| {
        refusal(move |r| match *r {
            Request::ParentBlockId { block_id: id } if id == block_id(11) => {
                Some(Reply::Parent(found()))
            }
            _ => None,
        })
    };
    assert_eq!(
        parent(lost),
        SquashTargetError::ParentLookup { block_id: block_id(11), cause: cause() }
    );
    assert_eq!(
        parent(|| Ok(None)),
        SquashTargetError::NoParentRow { block_id: block_id(11), height: 11 }
    );
}

#[test]
fn every_parent_header_must_be_there_and_lower() {
    let parent = |found: fn() -> Lookup<StacksHeader>| {
        refusal(move |r| match *r {
            Request::BlockHeader { block_id: id } if id == block_id(10) => {
                Some(Reply::Header(found()))
            }
            _ => None,
        })
    };
    assert_eq!(
        parent(lost),
        SquashTargetError::ParentHeaderLookup { parent_id: block_id(10), cause: cause() }
    );
    assert_eq!(
        parent(|| Ok(None)),
        SquashTargetError::MissingParent {
            block_id: block_id(11),
            height: 11,
            parent_id: block_id(10),
        }
    );
    assert_eq!(
        parent(|| Ok(Some(header(11, TENURE)))),
        SquashTargetError::HeightNotDecreasing {
            parent_id: block_id(10),
            parent_height: 11,
            child_id: block_id(11),
            child_height: 11,
        }
    );
}

#[test]
fn parent_of_another_tenure_ends_the_walk_at_any_height() {
    let targets = resolve_with(|r| match *r {
        Request::BlockHeader { block_id: id } if id == block_id(10) => {
            Some(Reply::Header(Ok(Some(header(200, OLDER)))))
        }
        _ => None,
    });
    assert_eq!(targets.unwrap().stacks_tip, block_id(11));
}

#[test]
fn first_block_height_must_fit() {
    assert_eq!(
        refusal(|r| match r {
            Request::TenureEndHeader { .. } => Some(Reply::TenureEnd(Ok(Some(StacksHeader {
                stacks_block_height: 4_294_967_296,
                ..header(10, TENURE)
            })))),
            _ => None,
        }),
        SquashTargetError::StacksHeightTooLarge { height: 4_294_967_296 }
    );
}

#[test]
fn burn_views_must_be_there_and_agree() {
    let without = |at: u64, burn_view: Option<ConsensusHash>| {
        refusal(move |r| match *r {
            Request::TenureEndHeader { .. } if at == 12 => {
                Some(Reply::TenureEnd(Ok(Some(StacksHeader { burn_view, ..header(12, TENURE) }))))
            }
            Request::BlockHeader { block_id: id } if at == 10 && id == block_id(10) => {
                Some(Reply::Header(Ok(Some(StacksHeader { burn_view, ..header(10, TENURE) }))))
            }
            _ => None,
        })
    };
    assert_eq!(
        without(10, None),
        SquashTargetError::StartBurnViewMissing { block_id: block_id(10), stacks_height: 10 }
    );
    assert_eq!(
        without(12, None),
        SquashTargetError::EndBurnViewMissing { block_id: block_id(12), height: 12 }
    );
    assert_eq!(
        without(12, Some(OLDER)),
        SquashTargetError::BurnViewMismatch {
            start_id: block_id(10),
            start_view: VIEW,
            end_id: block_id(12),
            end_view: OLDER,
        }
    );
}

#[test]
fn burn_view_must_have_a_snapshot() {
    assert_eq!(
        refusal(|r| match r {
            Request::SnapshotByConsensusHash { .. } => Some(Reply::Snapshot(lost())),
            _ => None,
        }),
        SquashTargetError::BurnViewLookup { burn_view: VIEW, cause: cause() }
    );
    assert_eq!(
        refusal(|r| match r {
            Request::SnapshotByConsensusHash { .. } => Some(Reply::Snapshot(Ok(None))),
            _ => None,
        }),
        SquashTargetError::NoBurnViewSnapshot { burn_view: VIEW }
    );
}

/// Puts the burn view at `height`, where the canonical burn chain has `found`.
fn burn_view_at(height: u64, found: fn() -> Lookup<BlockSnapshot>) -> SquashTargetError<'static> {
    refusal(move |r| match *r {
        Request::SnapshotByConsensusHash { .. } => {
            Some(Reply::Snapshot(Ok(Some(snapshot(height, VIEW, true)))))
        }
        Request::AncestorSnapshot { height: h, .. } if h == height => {
            Some(Reply::Ancestor(found()))
        }
        _ => None,
    })
}

#[test]
fn burn_view_must_be_canonical() {
    let at = START + 5;
    assert_eq!(
        burn_view_at(at, lost),
        SquashTargetError::CanonicalAncestor { height: at, cause: cause() }
    );
    assert_eq!(
        burn_view_at(at, || Ok(None)),
        SquashTargetError::NoCanonicalAncestor { height: at, burn_view: VIEW }
    );
    assert_eq!(
        burn_view_at(at, || Ok(Some(tip()))),
        SquashTargetError::OrphanBurnView {
            burn_view: VIEW,
            sortition_id: sortition_id(at),
            height: at,
        }
    );
}

#[test]
fn burn_view_height_must_be_in_bounds() {
    assert_eq!(
        burn_view_at(4_294_967_296, || Ok(Some(snapshot(4_294_967_296, VIEW, true)))),
        SquashTargetError::BurnViewHeightTooLarge { height: 4_294_967_296 }
    );
    assert_eq!(
        burn_view_at(START - 1, || Ok(Some(snapshot(START - 1, VIEW, true)))),
        SquashTargetError::BurnViewBeforeTenure { squash_height: 879_999, tenure_start: 880_000 }
    );
    assert_eq!(
        refusal(|r| match r {
            Request::OpenSortitionDb { .. } => Some(Reply::SortitionDb(Ok(880_001))),
            _ => None,
        }),
        SquashTargetError::BurnViewBeforeFirst { squash_height: 880_000, first: 880_001 }
    );
}

#[test]
fn sortition_marf_may_begin_at_the_boundary() {
    let targets = resolve_with(|r| match r {
        Request::OpenSortitionDb { .. } => Some(Reply::SortitionDb(Ok(880_000))),
        _ => None,
    })
    .unwrap();
    assert_eq!(targets.sortition_marf_height, 0);
    assert_eq!(targets.first_bitcoin_height, 880_000);
}

#[test]
fn burn_view_may_be_later_than_the_tenure_start() {
    let targets = resolve_with(|r| match *r {
        Request::SnapshotByConsensusHash { .. } => {
            Some(Reply::Snapshot(Ok(Some(snapshot(START + 7, VIEW, true)))))
        }
        Request::RuntimeTip { snapshot } => {
            assert_eq!(snapshot.block_height, START + 7);
            Some(Reply::Runtime(Ok(Some(runtime()))))
        }
        _ => None,
    })
    .unwrap();
    assert_eq!(targets.squash_bitcoin_height, 880_007);
    assert_eq!(targets.sortition_marf_height, 213_957);
    assert_eq!(targets.sortition_boundary_tip, sortition_id(START + 7));
}

#[test]
fn boundary_must_lead_back_to_the_last_block() {
    let with = |found: fn() -> Lookup<RuntimeTip>| {
        refusal(move |r| match r {
            Request::RuntimeTip { .. } => Some(Reply::Runtime(found())),
            _ => None,
        })
    };
    let boundary = sortition_id(START);
    assert_eq!(
        with(lost),
        SquashTargetError::RuntimeTipLookup { sortition_id: boundary, cause: cause() }
    );
    assert_eq!(
        with(|| Ok(None)),
        SquashTargetError::NoRuntimeTip { sortition_id: boundary }
    );
    assert_eq!(
        with(|| Ok(Some(RuntimeTip { block_id: block_id(11), ..runtime() }))),
        SquashTargetError::RuntimeTipMismatch {
            sortition_id: boundary,
            runtime_id: block_id(11),
            runtime_height: 12,
            end_id: block_id(12),
            end_height: 12,
        }
    );
    assert_eq!(
        with(|| Ok(Some(RuntimeTip { stacks_block_height: 13, ..runtime() }))),
        SquashTargetError::RuntimeHeightMismatch { runtime_height: 13, end_height: 12 }
    );
    assert_eq!(
        with(|| Ok(Some(RuntimeTip { burn_view: OLDER, ..runtime() }))),
        SquashTargetError::RuntimeBurnViewMismatch {
            runtime_view: OLDER,
            burn_view: VIEW,
            sortition_id: boundary,
        }
    );
}
