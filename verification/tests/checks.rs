use marf_squash::chain::{BlockSnapshot, StacksHeader};
use marf_squash::error::SquashTargetError;
use marf_squash::ids::{BlockHeaderHash, ConsensusHash, SortitionId, StacksBlockId};
use marf_squash::nearby::{format_no_tenure_start_error, nearby_search_range};
use marf_squash::targets::{
    assert_single_burn_block_tenure, next_burn_height, resolve_tenure_start_snapshot,
    tenure_bounds, TenureStart,
};
use marf_squash::walk::{find_tenure_start_ancestor_from_end, AncestorWalk, WalkStep};

const TENURE: ConsensusHash = ConsensusHash([1; 20]);
const OTHER: ConsensusHash = ConsensusHash([2; 20]);

fn header(height: u64, consensus_hash: ConsensusHash) -> StacksHeader {
    StacksHeader {
        block_id: StacksBlockId([height as u8; 32]),
        consensus_hash,
        block_hash: BlockHeaderHash([9; 32]),
        stacks_block_height: height,
        burn_view: Some(OTHER),
    }
}

fn snapshot(block_height: u64, sortition: bool) -> BlockSnapshot {
    BlockSnapshot {
        block_height,
        sortition_id: SortitionId([3; 32]),
        consensus_hash: TENURE,
        sortition,
    }
}

#[test]
fn next_burn_height_stops_at_the_last_height() {
    assert_eq!(next_burn_height(0), Ok(1));
    assert_eq!(next_burn_height(u64::MAX - 1), Ok(u64::MAX));
    assert_eq!(
        next_burn_height(u64::MAX),
        Err(SquashTargetError::NextHeightOverflow { height: u64::MAX })
    );
}

#[test]
fn sortition_winner_starts_a_tenure() {
    assert_eq!(
        resolve_tenure_start_snapshot(5, Ok(Some(snapshot(5, true)))),
        Ok(TenureStart::Started(snapshot(5, true)))
    );
    assert_eq!(
        resolve_tenure_start_snapshot(5, Ok(Some(snapshot(5, false)))),
        Ok(TenureStart::NotStarted)
    );
}

#[test]
fn next_sortition_closes_the_tenure() {
    assert_eq!(assert_single_burn_block_tenure(5, 6, Ok(Some(snapshot(6, true)))), Ok(()));
    assert_eq!(
        assert_single_burn_block_tenure(5, 6, Ok(Some(snapshot(6, false)))),
        Err(SquashTargetError::TenureExtends { height: 5, next_height: 6 })
    );
}

#[test]
fn search_stays_within_the_heights_there_are() {
    assert_eq!(nearby_search_range(880_000), (879_990, 880_010));
    assert_eq!(nearby_search_range(10), (0, 20));
    assert_eq!(nearby_search_range(3), (0, 13));
    assert_eq!(nearby_search_range(u64::MAX), (u64::MAX - 10, u64::MAX));
}

#[test]
fn hint_near_the_lowest_height() {
    let found = (0..=13).map(|h| Ok(Some(snapshot(h, h == 0 || h == 3 || h == 4)))).collect();
    assert_eq!(
        format_no_tenure_start_error(3, &found),
        "Bitcoin height 3 did not start a Nakamoto tenure (sortition=false).\
         \n  Nearby tenure starts: 0, 4"
    );
}

#[test]
fn hint_near_the_highest_height() {
    let from = u64::MAX - 10;
    let found = (from..=u64::MAX).map(|h| Ok(Some(snapshot(h, true)))).collect();
    let message = format_no_tenure_start_error(u64::MAX, &found);
    assert!(message.contains("Nearby tenure starts: 18446744073709551605, 18446744073709551606,"));
    assert!(message.ends_with(", 18446744073709551613, 18446744073709551614"));
}

#[test]
fn hint_goes_no_further_than_the_search() {
    let found = (0..100).map(|h| Ok(Some(snapshot(h, true)))).collect();
    let message = format_no_tenure_start_error(0, &found);
    assert!(message.ends_with("Nearby tenure starts: 1, 2, 3, 4, 5, 6, 7, 8, 9, 10"));
    let none: Vec<marf_squash::chain::Lookup<BlockSnapshot>> = vec![];
    assert_eq!(
        format_no_tenure_start_error(0, &none),
        "Bitcoin height 0 did not start a Nakamoto tenure (sortition=false)."
    );
}

#[test]
fn walk_begins_inside_its_tenure() {
    let end = header(12, TENURE);
    assert_eq!(
        find_tenure_start_ancestor_from_end(&TENURE, &end),
        Ok(AncestorWalk { tenure: TENURE, end, cursor: end, steps: 0 })
    );
    assert_eq!(
        find_tenure_start_ancestor_from_end(&OTHER, &end),
        Err(SquashTargetError::EndHeaderMismatch { tenure: OTHER, found: TENURE })
    );
}

#[test]
fn walk_goes_on_inside_and_arrives_at_the_edge() {
    let end = header(12, TENURE);
    let walk = find_tenure_start_ancestor_from_end(&TENURE, &end).unwrap();
    let parent = header(11, TENURE);
    let next = AncestorWalk { tenure: TENURE, end, cursor: parent, steps: 1 };
    assert_eq!(walk.step(parent.block_id, Ok(Some(parent))), Ok(WalkStep::Onward(next)));
    let before = header(10, OTHER);
    assert_eq!(next.step(before.block_id, Ok(Some(before))), Ok(WalkStep::Arrived(parent)));
}

#[test]
fn walk_to_the_bottom_never_runs_out() {
    let end = header(12, TENURE);
    let mut walk = find_tenure_start_ancestor_from_end(&TENURE, &end).unwrap();
    for height in (0..12).rev() {
        let parent = header(height, TENURE);
        walk = match walk.step(parent.block_id, Ok(Some(parent))) {
            Ok(WalkStep::Onward(next)) => next,
            other => panic!("{:?}", other),
        };
    }
    assert_eq!(walk.steps, 12);
    let parent = header(0, TENURE);
    assert!(matches!(
        walk.step(parent.block_id, Ok(Some(parent))),
        Err(SquashTargetError::HeightNotDecreasing { .. })
    ));
}

#[test]
fn exhausted_walk_is_reported() {
    let end = header(12, TENURE);
    let walk = AncestorWalk { tenure: TENURE, end, cursor: end, steps: 12 };
    let parent = header(11, TENURE);
    let refused = walk.step(parent.block_id, Ok(Some(parent)));
    assert_eq!(
        refused,
        Err(SquashTargetError::AncestorNotFound {
            tenure: TENURE,
            height: 12,
            end_id: end.block_id,
        })
    );
}

#[test]
fn first_block_may_not_be_above_the_last() {
    let refused = tenure_bounds(77, &header(13, TENURE), &header(12, TENURE));
    assert_eq!(
        refused,
        Err(SquashTargetError::BlockOrder { start_height: 13, end_height: 12, bitcoin_height: 77 })
    );
    assert!(tenure_bounds(77, &header(12, TENURE), &header(12, TENURE)).is_ok());
}

/// Walks back over blocks whose parents are one lower; those from `first` on
/// belong to the tenure. Gives the outcome and the number of parents looked at.
fn walk_down(end_height: u64, first: u64) -> (Result<StacksHeader, SquashTargetError<'static>>, u64) {
    let end = header(end_height, TENURE);
    let mut walk = find_tenure_start_ancestor_from_end(&TENURE, &end).unwrap();
    let mut links = 0;
    loop {
        links += 1;
        let below = walk.cursor.stacks_block_height.checked_sub(1).map(|h| {
            header(h, if h < first { OTHER } else { TENURE })
        });
        let parent_id = match walk.parent(Ok(below.map(|h| h.block_id))) {
            Ok(parent_id) => parent_id,
            Err(e) => return (Err(e), links),
        };
        match walk.step(parent_id, Ok(below)) {
            Ok(WalkStep::Onward(next)) => walk = next,
            Ok(WalkStep::Arrived(start)) => return (Ok(start), links),
            Err(e) => return (Err(e), links),
        }
    }
}

#[test]
fn whole_walk_ends_at_the_first_block() {
    assert_eq!(walk_down(12, 10), (Ok(header(10, TENURE)), 3));
    assert_eq!(walk_down(12, 12), (Ok(header(12, TENURE)), 1));
    assert_eq!(walk_down(12, 1), (Ok(header(1, TENURE)), 12));
}

#[test]
fn whole_walk_looks_at_no_more_parents_than_its_height_and_one() {
    let bottom = header(0, TENURE).block_id;
    assert_eq!(
        walk_down(12, 0),
        (Err(SquashTargetError::NoParentRow { block_id: bottom, height: 0 }), 13)
    );
}
