//! What a resolution comes to as a whole, for every state of the databases.

use crate::chain::{BlockSnapshot, Lookup, RuntimeTip, StacksHeader};
use crate::error::SquashTargetError;
use crate::ids::{ConsensusHash, SortitionId};
use crate::nearby::{hint_lists_the_nearby_starts, nearby_starts, search_end, search_start};
use crate::resolution::{nearby_request, Reply, Request, Resolution, Stage};
use crate::targets::{
    burn_context_outcome, burn_view_snapshot_outcome, chainstate_outcome, first_height_outcome,
    runtime_tip_outcome, single_burn_block_outcome, squash_height_outcome, targets_of,
    tenure_bounds_outcome, tenure_end_outcome, tenure_start_outcome, BurnContext,
    CanonicalSquashTargets, SquashTargetQuery, TenureBounds, TenureStart,
};
use crate::walk::{walk_never_runs_out, AncestorWalk, WalkStep};
use vstd::prelude::*;

verus! {

/// A state of the source databases: what each read of them gives back.
pub type Databases<'a> = spec_fn(Request<'a>) -> Reply;

/// Whether every read is answered with a reply of its own kind.
pub open spec fn answering(db: Databases) -> bool {
    forall|request: Request| (#[trigger] db(request)).answers(request)
}

/// The canonical sortition at `height`, on the fork of `tip`.
pub open spec fn sortition_at<'a>(
    db: Databases<'a>,
    tip: SortitionId,
    height: u64,
) -> Lookup<BlockSnapshot> {
    db(Request::AncestorSnapshot { height, tip })->Ancestor_0
}

/// The resolution `from` after at most `reads` reads of `db`.
pub open spec fn run<'a>(from: Resolution<'a>, db: Databases<'a>, reads: nat) -> Resolution<'a>
    decreases reads,
{
    match from.awaits() {
        None => from,
        Some(request) => if reads == 0 {
            from
        } else {
            run(from.after(db(request)), db, (reads - 1) as nat)
        },
    }
}

/// The first block of `tenure` on the way back from `cursor` through the
/// parents that `db` holds.
pub open spec fn first_block_from<'a>(
    db: Databases<'a>,
    tenure: ConsensusHash,
    cursor: StacksHeader,
) -> Result<StacksHeader, SquashTargetError<'a>>
    decreases cursor.stacks_block_height,
{
    let block_id = cursor.block_id;
    let height = cursor.stacks_block_height;
    match db(Request::ParentBlockId { block_id })->Parent_0 {
        Err(cause) => Err(SquashTargetError::ParentLookup { block_id, cause }),
        Ok(None) => Err(SquashTargetError::NoParentRow { block_id, height }),
        Ok(Some(parent_id)) => match db(Request::BlockHeader { block_id: parent_id })->Header_0 {
            Err(cause) => Err(SquashTargetError::ParentHeaderLookup { parent_id, cause }),
            Ok(None) => Err(SquashTargetError::MissingParent { block_id, height, parent_id }),
            Ok(Some(parent)) => if parent.consensus_hash != tenure {
                Ok(cursor)
            } else if parent.stacks_block_height >= height {
                Err(
                    SquashTargetError::HeightNotDecreasing {
                        parent_id,
                        parent_height: parent.stacks_block_height,
                        child_id: block_id,
                        child_height: height,
                    },
                )
            } else {
                first_block_from(db, tenure, parent)
            },
        },
    }
}

/// The outcome once the first and the last block of the tenure are known.
pub open spec fn resolved_bounds<'a>(
    query: SquashTargetQuery<'a>,
    db: Databases<'a>,
    context: BurnContext,
    bounds: TenureBounds,
) -> Result<CanonicalSquashTargets, SquashTargetError<'a>> {
    let by_hash = db(
        Request::SnapshotByConsensusHash { consensus_hash: bounds.burn_view },
    )->Snapshot_0;
    match burn_view_snapshot_outcome(bounds.burn_view, by_hash) {
        Err(e) => Err(e),
        Ok(snapshot) => match squash_height_outcome(
            bounds.burn_view,
            snapshot,
            sortition_at(db, context.canonical_tip.sortition_id, snapshot.block_height),
            query.tenure_start_bitcoin_height,
            context.first_bitcoin_height,
        ) {
            Err(e) => Err(e),
            Ok(height) => match runtime_tip_outcome(
                snapshot,
                bounds.end,
                bounds.burn_view,
                db(Request::RuntimeTip { snapshot })->Runtime_0,
            ) {
                Err(e) => Err(e),
                Ok(()) => Ok(targets_of(context, bounds, snapshot, height)),
            },
        },
    }
}

/// The outcome once the tenure is known to be one burn block long.
pub open spec fn resolved_tenure<'a>(
    query: SquashTargetQuery<'a>,
    db: Databases<'a>,
    context: BurnContext,
    tenure: ConsensusHash,
) -> Result<CanonicalSquashTargets, SquashTargetError<'a>> {
    let start_height = query.tenure_start_bitcoin_height as u64;
    let highest = db(Request::TenureEndHeader { height: start_height })->TenureEnd_0;
    match tenure_end_outcome(start_height, tenure, highest) {
        Err(e) => Err(e),
        Ok(end) => match first_block_from(db, tenure, end) {
            Err(e) => Err(e),
            Ok(start) => match tenure_bounds_outcome(start_height, start, end) {
                Err(e) => Err(e),
                Ok(bounds) => resolved_bounds(query, db, context, bounds),
            },
        },
    }
}

/// The outcome once the sortition DB is open.
pub open spec fn resolved_context<'a>(
    query: SquashTargetQuery<'a>,
    db: Databases<'a>,
    context: BurnContext,
) -> Result<CanonicalSquashTargets, SquashTargetError<'a>> {
    let start_height = query.tenure_start_bitcoin_height as u64;
    let next_height = (start_height + 1) as u64;
    let tip = context.canonical_tip.sortition_id;
    match tenure_start_outcome(start_height, sortition_at(db, tip, start_height)) {
        Err(e) => Err(e),
        Ok(TenureStart::NotStarted) => Err(
            SquashTargetError::NoTenureStart {
                height: start_height,
                nearby: db(nearby_request(start_height, tip))->Nearby_0,
            },
        ),
        Ok(TenureStart::Started(snapshot)) => match single_burn_block_outcome(
            start_height,
            next_height,
            sortition_at(db, tip, next_height),
        ) {
            Err(e) => Err(e),
            Ok(()) => resolved_tenure(query, db, context, snapshot.consensus_hash),
        },
    }
}

/// The outcome of `query` on `db`: each check in its order, the first that
/// fails decides.
pub open spec fn resolved<'a>(query: SquashTargetQuery<'a>, db: Databases<'a>) -> Result<
    CanonicalSquashTargets,
    SquashTargetError<'a>,
> {
    let chainstate = db(
        Request::OpenChainstate {
            mainnet: query.mainnet,
            chain_id: query.chain_id,
            root: query.chainstate_root,
        },
    )->Chainstate_0;
    let sortition_db = db(
        Request::OpenSortitionDb {
            dir: query.sortition_db_dir,
            pox_constants: query.pox_constants,
        },
    )->SortitionDb_0;
    match chainstate_outcome(query, chainstate) {
        Err(e) => Err(e),
        Ok(()) => match first_height_outcome(query, sortition_db) {
            Err(e) => Err(e),
            Ok(first_bitcoin_height) => match burn_context_outcome(
                first_bitcoin_height,
                db(Request::CanonicalBurnTip)->BurnTip_0,
            ) {
                Err(e) => Err(e),
                Ok(context) => resolved_context(query, db, context),
            },
        },
    }
}

/// The most reads that a resolution of `query` makes of `db`: nine, and two for
/// each Stacks height from the last block of the tenure down to zero.
pub open spec fn read_bound<'a>(query: SquashTargetQuery<'a>, db: Databases<'a>) -> nat {
    let height = query.tenure_start_bitcoin_height as u64;
    match db(Request::TenureEndHeader { height }) {
        Reply::TenureEnd(Ok(Some(end))) => (9 + 2 * (end.stacks_block_height + 1)) as nat,
        _ => 9,
    }
}

proof fn one_read<'a>(from: Resolution<'a>, db: Databases<'a>, reads: nat) -> (next: Resolution<'a>)
    requires
        answering(db),
        from.awaits() is Some,
        reads > 0,
    ensures
        db(from.awaits()->0).answers(from.awaits()->0),
        next == from.after(db(from.awaits()->0)),
        next.query == from.query,
        run(from, db, reads) == run(next, db, (reads - 1) as nat),
        next.stage is Done ==> run(from, db, reads) == next,
{
    from.after(db(from.awaits()->0))
}

proof fn runs_from_bounds<'a>(
    from: Resolution<'a>,
    db: Databases<'a>,
    context: BurnContext,
    bounds: TenureBounds,
    reads: nat,
)
    requires
        answering(db),
        from.stage == (Stage::BurnView { context, bounds }),
        reads >= 3,
    ensures
        run(from, db, reads).stage == Stage::Done(resolved_bounds(from.query, db, context, bounds)),
{
    let second = one_read(from, db, reads);
    if !(second.stage is Done) {
        let third = one_read(second, db, (reads - 1) as nat);
        if !(third.stage is Done) {
            one_read(third, db, (reads - 2) as nat);
        }
    }
}

proof fn runs_from_walk<'a>(
    from: Resolution<'a>,
    db: Databases<'a>,
    context: BurnContext,
    walk: AncestorWalk,
    reads: nat,
)
    requires
        answering(db),
        walk.wf(),
        from.stage == (Stage::Parent { context, walk }),
        reads >= 3 + 2 * (walk.cursor.stacks_block_height + 1),
    ensures
        run(from, db, reads).stage == Stage::Done(
            match first_block_from(db, walk.tenure, walk.cursor) {
                Err(e) => Err(e),
                Ok(start) => match tenure_bounds_outcome(
                    from.start_height(),
                    start,
                    walk.end,
                ) {
                    Err(e) => Err(e),
                    Ok(bounds) => resolved_bounds(from.query, db, context, bounds),
                },
            },
        ),
    decreases walk.cursor.stacks_block_height,
{
    let second = one_read(from, db, reads);
    if second.stage is Done {
    } else {
        let parent_id = second.stage->ParentHeader_parent_id;
        let found = db(Request::BlockHeader { block_id: parent_id })->Header_0;
        let third = one_read(second, db, (reads - 1) as nat);
        walk_never_runs_out(walk, parent_id, found);
        match walk.step_outcome::<'a>(parent_id, found) {
            Err(_) => {},
            Ok(WalkStep::Onward(next)) => {
                runs_from_walk(third, db, context, next, (reads - 2) as nat);
            },
            Ok(WalkStep::Arrived(start)) => {
                if let Ok(bounds) = tenure_bounds_outcome::<'a>(
                    from.start_height(),
                    start,
                    walk.end,
                ) {
                    runs_from_bounds(third, db, context, bounds, (reads - 2) as nat);
                }
            },
        }
    }
}

proof fn runs_from_tenure<'a>(
    from: Resolution<'a>,
    db: Databases<'a>,
    context: BurnContext,
    tenure: ConsensusHash,
    reads: nat,
)
    requires
        answering(db),
        from.stage == (Stage::TenureEnd { context, tenure }),
        reads >= read_bound(from.query, db) - 5,
    ensures
        run(from, db, reads).stage == Stage::Done(resolved_tenure(from.query, db, context, tenure)),
{
    let second = one_read(from, db, reads);
    if !(second.stage is Done) {
        runs_from_walk(second, db, context, second.stage->Parent_walk, (reads - 1) as nat);
    }
}

proof fn runs_from_context<'a>(
    from: Resolution<'a>,
    db: Databases<'a>,
    context: BurnContext,
    reads: nat,
)
    requires
        answering(db),
        from.stage == (Stage::TenureStart { context }),
        reads >= read_bound(from.query, db) - 3,
    ensures
        run(from, db, reads).stage == Stage::Done(resolved_context(from.query, db, context)),
{
    let second = one_read(from, db, reads);
    if !(second.stage is Done) {
        let third = one_read(second, db, (reads - 1) as nat);
        if !(third.stage is Done) {
            runs_from_tenure(
                third,
                db,
                context,
                third.stage->TenureEnd_tenure,
                (reads - 2) as nat,
            );
        }
    }
}

/// A resolution ends: on every state of the databases that answers its reads it
/// is done within the read bound, and its outcome is that of the checks in
/// their order.
pub proof fn resolution_ends_with_the_outcome<'a>(
    query: SquashTargetQuery<'a>,
    db: Databases<'a>,
    reads: nat,
)
    requires
        answering(db),
        reads >= read_bound(query, db),
    ensures
        run(Resolution::begun(query), db, reads) == (Resolution {
            query,
            stage: Stage::Done(resolved(query, db)),
        }),
{
    let first = Resolution::begun(query);
    run_keeps_query(first, db, reads);
    let second = one_read(first, db, reads);
    if !(second.stage is Done) {
        let third = one_read(second, db, (reads - 1) as nat);
        if !(third.stage is Done) {
            let fourth = one_read(third, db, (reads - 2) as nat);
            if !(fourth.stage is Done) {
                runs_from_context(
                    fourth,
                    db,
                    fourth.stage->TenureStart_context,
                    (reads - 3) as nat,
                );
            }
        }
    }
}

proof fn run_keeps_query<'a>(from: Resolution<'a>, db: Databases<'a>, reads: nat)
    ensures
        run(from, db, reads).query == from.query,
    decreases reads,
{
    if let Some(request) = from.awaits() {
        if reads > 0 {
            run_keeps_query(from.after(db(request)), db, (reads - 1) as nat);
        }
    }
}

/// A reply that was not asked for changes nothing, and nothing changes a
/// resolution that is done.
pub proof fn unasked_reply_changes_nothing<'a>(from: Resolution<'a>, reply: Reply)
    requires
        from.awaits() matches Some(request) ==> !reply.answers(request),
    ensures
        from.after(reply) == from,
{
}

/// Whether a read of a range of sortitions gives what the reads of each one
/// give.
pub open spec fn ranges_agree<'a>(db: Databases<'a>, from: u64, to: u64, tip: SortitionId) -> bool {
    &&& db(Request::NearbySnapshots { from, to, tip }) matches Reply::Nearby(found)
    &&& found@.len() == to - from + 1
    &&& forall|i: int|
        0 <= i < found@.len() ==> #[trigger] found@[i] == sortition_at(
            db,
            tip,
            (from + i) as u64,
        )
}

/// Where no tenure started at the requested height, the refusal hints at each
/// other height within ten burn blocks at which the canonical burn chain shows
/// a tenure start, and at nothing else.
pub proof fn refusal_hints_at_the_nearby_tenures<'a>(
    query: SquashTargetQuery<'a>,
    db: Databases<'a>,
    context: BurnContext,
    height: u64,
)
    requires
        ({
            let start_height = query.tenure_start_bitcoin_height as u64;
            let tip = context.canonical_tip.sortition_id;
            &&& sortition_at(db, tip, start_height) matches Ok(Some(snapshot))
            &&& !snapshot.sortition
            &&& ranges_agree(db, search_start(start_height), search_end(start_height), tip)
        }),
    ensures
        ({
            let start_height = query.tenure_start_bitcoin_height as u64;
            let tip = context.canonical_tip.sortition_id;
            &&& resolved_context(query, db, context) matches Err(
                SquashTargetError::NoTenureStart { height: refused, nearby },
            )
            &&& refused == start_height
            &&& nearby_starts(refused, nearby@).contains(height) <==> {
                &&& height != start_height
                &&& start_height - 10 <= height <= start_height + 10
                &&& sortition_at(db, tip, height) matches Ok(Some(snapshot))
                &&& snapshot.sortition
            }
        }),
{
    let start_height = query.tenure_start_bitcoin_height as u64;
    let tip = context.canonical_tip.sortition_id;
    let found = db(nearby_request(start_height, tip))->Nearby_0;
    hint_lists_the_nearby_starts(start_height, found@, height);
    let i = height - search_start(start_height);
    if 0 <= i < found@.len() {
        assert(found@[i] == sortition_at(db, tip, height));
    }
}

/// The errors that guard against what the earlier checks already rule out never
/// come up: there is always a height after the requested one, the walk begins
/// inside its tenure, it never runs out of links, and the block that it arrives
/// at is no higher than the one that it began at.
pub proof fn guarded_errors_never_come_up<'a>(query: SquashTargetQuery<'a>, db: Databases<'a>)
    ensures
        resolved(query, db) matches Err(e) ==> !(e is NextHeightOverflow || e is EndHeaderMismatch
            || e is AncestorNotFound || e is BlockOrder),
{
    let height = query.tenure_start_bitcoin_height as u64;
    let start = sortition_at(
        db,
        db(Request::CanonicalBurnTip)->BurnTip_0->Ok_0.sortition_id,
        height,
    )->Ok_0->0;
    let end = db(Request::TenureEndHeader { height })->TenureEnd_0->Ok_0->0;
    first_block_is_not_above(db, start.consensus_hash, end);
}

/// The first block of a tenure is no higher than the block that the walk back
/// to it began at.
proof fn first_block_is_not_above<'a>(
    db: Databases<'a>,
    tenure: ConsensusHash,
    cursor: StacksHeader,
)
    ensures
        match first_block_from(db, tenure, cursor) {
            Ok(start) => start.stacks_block_height <= cursor.stacks_block_height,
            Err(e) => e is ParentLookup || e is NoParentRow || e is ParentHeaderLookup
                || e is MissingParent || e is HeightNotDecreasing,
        },
    decreases cursor.stacks_block_height,
{
    let parent_id = db(
        Request::ParentBlockId { block_id: cursor.block_id },
    )->Parent_0->Ok_0->0;
    let parent = db(Request::BlockHeader { block_id: parent_id })->Header_0->Ok_0->0;
    if parent.stacks_block_height < cursor.stacks_block_height {
        first_block_is_not_above(db, tenure, parent);
    }
}

/// Where `walk` comes to on `db` if it looks at no more than `links` parents:
/// the first block of the tenure, or why it stopped; none if it is still on its
/// way.
pub open spec fn walked<'a>(db: Databases<'a>, walk: AncestorWalk, links: nat) -> Option<
    Result<StacksHeader, SquashTargetError<'a>>,
>
    decreases links,
{
    if links == 0 {
        None
    } else {
        let parent = db(Request::ParentBlockId { block_id: walk.cursor.block_id })->Parent_0;
        match walk.parent_outcome(parent) {
            Err(e) => Some(Err(e)),
            Ok(parent_id) => match walk.step_outcome(
                parent_id,
                db(Request::BlockHeader { block_id: parent_id })->Header_0,
            ) {
                Err(e) => Some(Err(e)),
                Ok(WalkStep::Arrived(start)) => Some(Ok(start)),
                Ok(WalkStep::Onward(next)) => walked(db, next, (links - 1) as nat),
            },
        }
    }
}

/// A well-formed walk ends: it looks at no more parents than the block that it
/// has come to is high, and one, and comes to the first block of the tenure on
/// the way back from there, or to the failure that lies on that way.
pub proof fn walk_ends_at_the_first_block<'a>(db: Databases<'a>, walk: AncestorWalk, links: nat)
    requires
        walk.wf(),
        links >= walk.cursor.stacks_block_height + 1,
    ensures
        walked(db, walk, links) == Some(first_block_from(db, walk.tenure, walk.cursor)),
    decreases walk.cursor.stacks_block_height,
{
    let parent = db(Request::ParentBlockId { block_id: walk.cursor.block_id })->Parent_0;
    if let Ok(Some(parent_id)) = parent {
        let found = db(Request::BlockHeader { block_id: parent_id })->Header_0;
        walk_never_runs_out(walk, parent_id, found);
        if let Ok(WalkStep::Onward(next)) = walk.step_outcome::<'a>(parent_id, found) {
            walk_ends_at_the_first_block(db, next, (links - 1) as nat);
        }
    }
}

/// Whether `db` holds `parent` as the parent of `child`.
pub open spec fn is_parent<'a>(
    db: Databases<'a>,
    child: StacksHeader,
    parent: StacksHeader,
) -> bool {
    &&& db(Request::ParentBlockId { block_id: child.block_id }) matches Reply::Parent(
        Ok(Some(parent_id)),
    )
    &&& db(Request::BlockHeader { block_id: parent_id }) == Reply::Header(Ok(Some(parent)))
}

/// Whether the element after `i` in `chain` is the parent of the one at `i`, in
/// `tenure` and at a lower height.
pub open spec fn is_link<'a>(
    db: Databases<'a>,
    tenure: ConsensusHash,
    chain: Seq<StacksHeader>,
    i: int,
) -> bool {
    &&& is_parent(db, chain[i], chain[i + 1])
    &&& chain[i + 1].consensus_hash == tenure
    &&& chain[i + 1].stacks_block_height < chain[i].stacks_block_height
}

/// Whether `chain` is all of `tenure` from its first element back: each block
/// is followed by its parent, and the parent of the last one, `before`, is the
/// first to belong to another tenure.
pub open spec fn is_tenure_chain<'a>(
    db: Databases<'a>,
    tenure: ConsensusHash,
    chain: Seq<StacksHeader>,
    before: StacksHeader,
) -> bool {
    &&& chain.len() > 0
    &&& forall|i: int| 0 <= i < chain.len() - 1 ==> #[trigger] is_link(db, tenure, chain, i)
    &&& is_parent(db, chain.last(), before)
    &&& before.consensus_hash != tenure
}

/// The walk back from a block arrives exactly where the chain of parents leaves
/// the tenure.
pub proof fn first_block_ends_the_chain<'a>(
    db: Databases<'a>,
    tenure: ConsensusHash,
    end: StacksHeader,
    start: StacksHeader,
)
    requires
        answering(db),
    ensures
        first_block_from(db, tenure, end) == Ok::<_, SquashTargetError<'a>>(start) <==> exists|
            chain: Seq<StacksHeader>,
            before: StacksHeader,
        |
            #[trigger] is_tenure_chain(db, tenure, chain, before) && chain[0] == end
                && chain.last() == start,
{
    if first_block_from(db, tenure, end) == Ok::<_, SquashTargetError<'a>>(start) {
        let (chain, before) = chain_to_first_block(db, tenure, end, start);
        assert(is_tenure_chain(db, tenure, chain, before));
    }
    if exists|chain: Seq<StacksHeader>, before: StacksHeader| #[trigger]
        is_tenure_chain(db, tenure, chain, before) && chain[0] == end && chain.last() == start {
        let (chain, before) = choose|chain: Seq<StacksHeader>, before: StacksHeader| #[trigger]
            is_tenure_chain(db, tenure, chain, before) && chain[0] == end && chain.last() == start;
        chain_reaches_first_block(db, tenure, chain, before);
    }
}

proof fn chain_to_first_block<'a>(
    db: Databases<'a>,
    tenure: ConsensusHash,
    end: StacksHeader,
    start: StacksHeader,
) -> (r: (Seq<StacksHeader>, StacksHeader))
    requires
        answering(db),
        first_block_from(db, tenure, end) == Ok::<_, SquashTargetError<'a>>(start),
    ensures
        is_tenure_chain(db, tenure, r.0, r.1),
        r.0[0] == end,
        r.0.last() == start,
    decreases end.stacks_block_height,
{
    let parent_request = Request::ParentBlockId { block_id: end.block_id };
    assert(db(parent_request).answers(parent_request));
    let parent_id = db(parent_request)->Parent_0->Ok_0->0;
    let header_request = Request::BlockHeader { block_id: parent_id };
    assert(db(header_request).answers(header_request));
    let parent = db(header_request)->Header_0->Ok_0->0;
    assert(is_parent(db, end, parent));
    if parent.consensus_hash != tenure {
        (seq![end], parent)
    } else {
        let (rest, before) = chain_to_first_block(db, tenure, parent, start);
        let chain = seq![end] + rest;
        assert forall|i: int| 0 <= i < chain.len() - 1 implies #[trigger] is_link(
            db,
            tenure,
            chain,
            i,
        ) by {
            if i > 0 {
                assert(is_link(db, tenure, rest, i - 1));
            }
        }
        assert(chain.last() == rest.last());
        (chain, before)
    }
}

proof fn chain_reaches_first_block<'a>(
    db: Databases<'a>,
    tenure: ConsensusHash,
    chain: Seq<StacksHeader>,
    before: StacksHeader,
)
    requires
        is_tenure_chain(db, tenure, chain, before),
    ensures
        first_block_from(db, tenure, chain[0]) == Ok::<_, SquashTargetError<'a>>(chain.last()),
    decreases chain.len(),
{
    if chain.len() > 1 {
        let rest = chain.skip(1);
        assert(is_link(db, tenure, chain, 0));
        assert forall|i: int| 0 <= i < rest.len() - 1 implies #[trigger] is_link(
            db,
            tenure,
            rest,
            i,
        ) by {
            assert(is_link(db, tenure, chain, i + 1));
        }
        chain_reaches_first_block(db, tenure, rest, before);
    }
}

/// What the databases hold for a tenure that can be squashed.
pub struct BoundaryEvidence {
    /// First Bitcoin block height of the sortition DB.
    pub first_bitcoin_height: u32,
    /// Canonical burn tip.
    pub tip: BlockSnapshot,
    /// The sortition that starts the tenure.
    pub started: BlockSnapshot,
    /// The sortition after it.
    pub next: BlockSnapshot,
    /// The blocks of the tenure, from the last to the first.
    pub chain: Seq<StacksHeader>,
    /// The block before the tenure.
    pub before: StacksHeader,
    /// The burn view of the tenure.
    pub burn_view: ConsensusHash,
    /// The sortition of the burn view.
    pub boundary: BlockSnapshot,
    /// The canonical sortition at its height.
    pub canonical: BlockSnapshot,
    /// The runtime tip that the boundary leads to.
    pub runtime: RuntimeTip,
}

impl BoundaryEvidence {
    /// Header of the first block of the tenure.
    pub open spec fn start(self) -> StacksHeader {
        self.chain.last()
    }

    /// Header of the last block of the tenure.
    pub open spec fn end(self) -> StacksHeader {
        self.chain[0]
    }

    /// The source databases open, and the burn chain has a canonical tip.
    pub open spec fn opens<'a>(self, query: SquashTargetQuery<'a>, db: Databases<'a>) -> bool {
        &&& db(
            Request::OpenChainstate {
                mainnet: query.mainnet,
                chain_id: query.chain_id,
                root: query.chainstate_root,
            },
        ) matches Reply::Chainstate(Ok(_))
        &&& db(
            Request::OpenSortitionDb {
                dir: query.sortition_db_dir,
                pox_constants: query.pox_constants,
            },
        ) == Reply::SortitionDb(Ok(self.first_bitcoin_height as u64))
        &&& db(Request::CanonicalBurnTip) == Reply::BurnTip(Ok(self.tip))
    }

    /// Whether `snapshot` is the canonical sortition at `height`.
    pub open spec fn is_canonical<'a>(
        self,
        db: Databases<'a>,
        height: int,
        snapshot: BlockSnapshot,
    ) -> bool {
        db(
            Request::AncestorSnapshot { height: height as u64, tip: self.tip.sortition_id },
        ) == Reply::Ancestor(Ok(Some(snapshot)))
    }

    /// A tenure starts at the requested height, and another right after it.
    pub open spec fn is_one_burn_block_long<'a>(
        self,
        query: SquashTargetQuery<'a>,
        db: Databases<'a>,
    ) -> bool {
        let height = query.tenure_start_bitcoin_height as int;
        &&& self.is_canonical(db, height, self.started)
        &&& self.started.sortition
        &&& self.is_canonical(db, height + 1, self.next)
        &&& self.next.sortition
    }

    /// The blocks of the tenure reach from its highest known block back to its
    /// first one.
    pub open spec fn covers_the_tenure<'a>(
        self,
        query: SquashTargetQuery<'a>,
        db: Databases<'a>,
    ) -> bool {
        let height = query.tenure_start_bitcoin_height as u64;
        &&& is_tenure_chain(db, self.started.consensus_hash, self.chain, self.before)
        &&& db(Request::TenureEndHeader { height }) == Reply::TenureEnd(Ok(Some(self.end())))
        &&& self.end().consensus_hash == self.started.consensus_hash
        &&& self.start().stacks_block_height <= u32::MAX
    }

    /// The tenure has one burn view, which is on the canonical fork and no
    /// older than the tenure and the sortition DB.
    pub open spec fn has_canonical_burn_view<'a>(
        self,
        query: SquashTargetQuery<'a>,
        db: Databases<'a>,
    ) -> bool {
        &&& self.start().burn_view == Some(self.burn_view)
        &&& self.end().burn_view == Some(self.burn_view)
        &&& db(
            Request::SnapshotByConsensusHash { consensus_hash: self.burn_view },
        ) == Reply::Snapshot(Ok(Some(self.boundary)))
        &&& self.is_canonical(db, self.boundary.block_height as int, self.canonical)
        &&& self.canonical.sortition_id == self.boundary.sortition_id
        &&& query.tenure_start_bitcoin_height <= self.boundary.block_height <= u32::MAX
        &&& self.first_bitcoin_height <= self.boundary.block_height
    }

    /// The boundary leads a node back to the last block of the tenure.
    pub open spec fn leads_back<'a>(self, db: Databases<'a>) -> bool {
        &&& db(Request::RuntimeTip { snapshot: self.boundary }) == Reply::Runtime(
            Ok(Some(self.runtime)),
        )
        &&& self.runtime.block_id == self.end().block_id
        &&& self.runtime.stacks_block_height == self.end().stacks_block_height
        &&& self.runtime.burn_view == self.burn_view
    }

    /// Whether `db` holds all of this.
    pub open spec fn holds<'a>(self, query: SquashTargetQuery<'a>, db: Databases<'a>) -> bool {
        &&& self.opens(query, db)
        &&& self.is_one_burn_block_long(query, db)
        &&& self.covers_the_tenure(query, db)
        &&& self.has_canonical_burn_view(query, db)
        &&& self.leads_back(db)
    }

    /// Whether `targets` names the boundaries of the tenure.
    pub open spec fn is_named_by(self, targets: CanonicalSquashTargets) -> bool {
        &&& targets.stacks_height == self.start().stacks_block_height
        &&& targets.stacks_tip == self.start().block_id
        &&& targets.stacks_tip_consensus_hash == self.started.consensus_hash
        &&& targets.stacks_tip_burn_view_consensus_hash == self.burn_view
        &&& targets.stacks_tip_block_hash == self.start().block_hash
        &&& targets.squash_bitcoin_height == self.boundary.block_height
        &&& targets.sortition_marf_height + self.first_bitcoin_height
            == self.boundary.block_height
        &&& targets.sortition_canonical_tip == self.tip.sortition_id
        &&& targets.sortition_boundary_tip == self.boundary.sortition_id
        &&& targets.first_bitcoin_height == self.first_bitcoin_height
    }
}

/// A resolution succeeds exactly on the tenures that can be squashed: it gives
/// `targets` if and only if the databases hold a tenure of one burn block at the
/// requested height, reaching from a known last block back to its first, with
/// one canonical burn view that leads a node back to the last block, and
/// `targets` names the boundaries of that tenure.
pub proof fn resolves_exactly_the_squashable_tenures<'a>(
    query: SquashTargetQuery<'a>,
    db: Databases<'a>,
    targets: CanonicalSquashTargets,
)
    requires
        answering(db),
    ensures
        resolved(query, db) == Ok::<_, SquashTargetError<'a>>(targets) <==> exists|
            evidence: BoundaryEvidence,
        | #[trigger]
            evidence.holds(query, db) && evidence.is_named_by(targets),
{
    if resolved(query, db) == Ok::<_, SquashTargetError<'a>>(targets) {
        let evidence = evidence_of_success(query, db, targets);
        assert(evidence.holds(query, db));
    }
    if exists|evidence: BoundaryEvidence| #[trigger]
        evidence.holds(query, db) && evidence.is_named_by(targets) {
        let evidence = choose|evidence: BoundaryEvidence| #[trigger]
            evidence.holds(query, db) && evidence.is_named_by(targets);
        evidence_gives_success(query, db, evidence, targets);
    }
}

proof fn evidence_of_success<'a>(
    query: SquashTargetQuery<'a>,
    db: Databases<'a>,
    targets: CanonicalSquashTargets,
) -> (evidence: BoundaryEvidence)
    requires
        answering(db),
        resolved(query, db) == Ok::<_, SquashTargetError<'a>>(targets),
    ensures
        evidence.holds(query, db),
        evidence.is_named_by(targets),
{
    let height = query.tenure_start_bitcoin_height as u64;
    let chainstate_request = Request::OpenChainstate {
        mainnet: query.mainnet,
        chain_id: query.chain_id,
        root: query.chainstate_root,
    };
    let sortition_request = Request::OpenSortitionDb {
        dir: query.sortition_db_dir,
        pox_constants: query.pox_constants,
    };
    assert(db(chainstate_request).answers(chainstate_request));
    assert(db(sortition_request).answers(sortition_request));
    assert(db(Request::CanonicalBurnTip).answers(Request::CanonicalBurnTip));
    let tip = db(Request::CanonicalBurnTip)->BurnTip_0->Ok_0;
    let start_request = Request::AncestorSnapshot { height, tip: tip.sortition_id };
    let next_request = Request::AncestorSnapshot {
        height: (height + 1) as u64,
        tip: tip.sortition_id,
    };
    assert(db(start_request).answers(start_request));
    assert(db(next_request).answers(next_request));
    let started = db(start_request)->Ancestor_0->Ok_0->0;
    let tenure = started.consensus_hash;
    let end_request = Request::TenureEndHeader { height };
    assert(db(end_request).answers(end_request));
    let end = db(end_request)->TenureEnd_0->Ok_0->0;
    let start = first_block_from(db, tenure, end)->Ok_0;
    let (chain, before) = chain_to_first_block(db, tenure, end, start);
    let burn_view = start.burn_view->0;
    let view_request = Request::SnapshotByConsensusHash { consensus_hash: burn_view };
    assert(db(view_request).answers(view_request));
    let boundary = db(view_request)->Snapshot_0->Ok_0->0;
    let canonical_request = Request::AncestorSnapshot {
        height: boundary.block_height,
        tip: tip.sortition_id,
    };
    assert(db(canonical_request).answers(canonical_request));
    let runtime_request = Request::RuntimeTip { snapshot: boundary };
    assert(db(runtime_request).answers(runtime_request));
    if chain.len() > 1 {
        assert(is_link(db, tenure, chain, chain.len() - 2));
    }
    BoundaryEvidence {
        first_bitcoin_height: db(sortition_request)->SortitionDb_0->Ok_0 as u32,
        tip,
        started,
        next: db(next_request)->Ancestor_0->Ok_0->0,
        chain,
        before,
        burn_view,
        boundary,
        canonical: db(canonical_request)->Ancestor_0->Ok_0->0,
        runtime: db(runtime_request)->Runtime_0->Ok_0->0,
    }
}

proof fn evidence_gives_success<'a>(
    query: SquashTargetQuery<'a>,
    db: Databases<'a>,
    evidence: BoundaryEvidence,
    targets: CanonicalSquashTargets,
)
    requires
        evidence.holds(query, db),
        evidence.is_named_by(targets),
    ensures
        resolved(query, db) == Ok::<_, SquashTargetError<'a>>(targets),
{
    let tenure = evidence.started.consensus_hash;
    chain_reaches_first_block(db, tenure, evidence.chain, evidence.before);
    first_block_is_not_above(db, tenure, evidence.end());
    if evidence.chain.len() > 1 {
        assert(is_link(db, tenure, evidence.chain, evidence.chain.len() - 2));
    }
}

/// Whether `db` stops a walk through `tenure` that has come to `at`, in the way
/// that `e` says.
pub open spec fn stops_at<'a>(
    db: Databases<'a>,
    tenure: ConsensusHash,
    at: StacksHeader,
    e: SquashTargetError<'a>,
) -> bool {
    let parent = db(Request::ParentBlockId { block_id: at.block_id });
    match e {
        SquashTargetError::ParentLookup { block_id, cause } => {
            &&& block_id == at.block_id
            &&& parent == Reply::Parent(Err(cause))
        },
        SquashTargetError::NoParentRow { block_id, height } => {
            &&& block_id == at.block_id
            &&& height == at.stacks_block_height
            &&& parent == Reply::Parent(Ok(None))
        },
        SquashTargetError::ParentHeaderLookup { parent_id, cause } => {
            &&& parent == Reply::Parent(Ok(Some(parent_id)))
            &&& db(Request::BlockHeader { block_id: parent_id }) == Reply::Header(Err(cause))
        },
        SquashTargetError::MissingParent { block_id, height, parent_id } => {
            &&& block_id == at.block_id
            &&& height == at.stacks_block_height
            &&& parent == Reply::Parent(Ok(Some(parent_id)))
            &&& db(Request::BlockHeader { block_id: parent_id }) == Reply::Header(Ok(None))
        },
        SquashTargetError::HeightNotDecreasing {
            parent_id,
            parent_height,
            child_id,
            child_height,
        } => {
            &&& child_id == at.block_id
            &&& child_height == at.stacks_block_height
            &&& parent == Reply::Parent(Ok(Some(parent_id)))
            &&& db(Request::BlockHeader { block_id: parent_id }) matches Reply::Header(
                Ok(Some(header)),
            )
            &&& header.consensus_hash == tenure
            &&& parent_height == header.stacks_block_height
            &&& parent_height >= child_height
        },
        _ => false,
    }
}

impl BoundaryEvidence {
    /// What `db` holds as the canonical sortition at `height`.
    pub open spec fn canonical_read<'a>(self, db: Databases<'a>, height: int) -> Reply {
        db(Request::AncestorSnapshot { height: height as u64, tip: self.tip.sortition_id })
    }

    /// The blocks go back from the highest known one, each in the tenure and
    /// followed by its parent.
    pub open spec fn goes_back<'a>(self, query: SquashTargetQuery<'a>, db: Databases<'a>) -> bool {
        let height = query.tenure_start_bitcoin_height as u64;
        let tenure = self.started.consensus_hash;
        &&& self.opens(query, db)
        &&& self.is_one_burn_block_long(query, db)
        &&& db(Request::TenureEndHeader { height }) == Reply::TenureEnd(Ok(Some(self.end())))
        &&& self.end().consensus_hash == tenure
        &&& self.chain.len() > 0
        &&& forall|i: int|
            0 <= i < self.chain.len() - 1 ==> #[trigger] is_link(db, tenure, self.chain, i)
    }

    /// They go back to the first block of the tenure.
    pub open spec fn goes_all_the_way<'a>(
        self,
        query: SquashTargetQuery<'a>,
        db: Databases<'a>,
    ) -> bool {
        &&& self.goes_back(query, db)
        &&& is_parent(db, self.start(), self.before)
        &&& self.before.consensus_hash != self.started.consensus_hash
    }

    /// The first and the last block share the burn view, and the Stacks height of
    /// the first fits in 32 bits.
    pub open spec fn shares_the_burn_view<'a>(
        self,
        query: SquashTargetQuery<'a>,
        db: Databases<'a>,
    ) -> bool {
        &&& self.goes_all_the_way(query, db)
        &&& self.start().stacks_block_height <= u32::MAX
        &&& self.start().burn_view == Some(self.burn_view)
        &&& self.end().burn_view == Some(self.burn_view)
    }

    /// The burn view has a snapshot.
    pub open spec fn has_boundary<'a>(
        self,
        query: SquashTargetQuery<'a>,
        db: Databases<'a>,
    ) -> bool {
        &&& self.shares_the_burn_view(query, db)
        &&& db(
            Request::SnapshotByConsensusHash { consensus_hash: self.burn_view },
        ) == Reply::Snapshot(Ok(Some(self.boundary)))
    }

    /// The snapshot is the canonical sortition at its height.
    pub open spec fn boundary_is_canonical<'a>(
        self,
        query: SquashTargetQuery<'a>,
        db: Databases<'a>,
    ) -> bool {
        &&& self.has_boundary(query, db)
        &&& self.is_canonical(db, self.boundary.block_height as int, self.canonical)
        &&& self.canonical.sortition_id == self.boundary.sortition_id
    }

    /// The height of the snapshot fits in 32 bits, and is no lower than the tenure
    /// and the sortition DB begin.
    pub open spec fn boundary_is_in_range<'a>(
        self,
        query: SquashTargetQuery<'a>,
        db: Databases<'a>,
    ) -> bool {
        &&& self.boundary_is_canonical(query, db)
        &&& query.tenure_start_bitcoin_height <= self.boundary.block_height <= u32::MAX
        &&& self.first_bitcoin_height <= self.boundary.block_height
    }

    /// The boundary leads to a runtime tip.
    pub open spec fn has_runtime_tip<'a>(
        self,
        query: SquashTargetQuery<'a>,
        db: Databases<'a>,
    ) -> bool {
        &&& self.boundary_is_in_range(query, db)
        &&& db(Request::RuntimeTip { snapshot: self.boundary }) == Reply::Runtime(
            Ok(Some(self.runtime)),
        )
    }

    /// Whether `e` is true of an attempt to open the databases.
    pub open spec fn opening_fails<'a>(
        self,
        query: SquashTargetQuery<'a>,
        db: Databases<'a>,
        e: SquashTargetError<'a>,
    ) -> bool {
        let chainstate = db(
            Request::OpenChainstate {
                mainnet: query.mainnet,
                chain_id: query.chain_id,
                root: query.chainstate_root,
            },
        );
        let sortition_db = db(
            Request::OpenSortitionDb {
                dir: query.sortition_db_dir,
                pox_constants: query.pox_constants,
            },
        );
        match e {
            SquashTargetError::ChainstateOpen { path, cause } => {
                &&& path == query.chainstate_root
                &&& chainstate == Reply::Chainstate(Err(cause))
            },
            SquashTargetError::SortitionDbOpen { path, cause } => {
                &&& chainstate matches Reply::Chainstate(Ok(_))
                &&& path == query.sortition_db_dir
                &&& sortition_db == Reply::SortitionDb(Err(cause))
            },
            SquashTargetError::FirstHeightTooLarge { height } => {
                &&& chainstate matches Reply::Chainstate(Ok(_))
                &&& sortition_db == Reply::SortitionDb(Ok(height))
                &&& height > u32::MAX
            },
            SquashTargetError::BurnTip { cause } => {
                &&& chainstate matches Reply::Chainstate(Ok(_))
                &&& sortition_db == Reply::SortitionDb(Ok(self.first_bitcoin_height as u64))
                &&& db(Request::CanonicalBurnTip) == Reply::BurnTip(Err(cause))
            },
            _ => false,
        }
    }

    /// Whether `e` is true of the sortitions that start and follow the tenure,
    /// once the databases are open.
    pub open spec fn start_fails<'a>(
        self,
        query: SquashTargetQuery<'a>,
        db: Databases<'a>,
        e: SquashTargetError<'a>,
    ) -> bool {
        let start = query.tenure_start_bitcoin_height as int;
        let starts = self.is_canonical(db, start, self.started) && self.started.sortition;
        &&& self.opens(query, db)
        &&& match e {
            SquashTargetError::AncestorSnapshot { height, cause } => {
                ||| height == start && self.canonical_read(db, start) == Reply::Ancestor(Err(cause))
                ||| starts && height == start + 1 && self.canonical_read(db, start + 1)
                    == Reply::Ancestor(Err(cause))
            },
            SquashTargetError::NoStartSortition { height } => {
                &&& height == start
                &&& self.canonical_read(db, start) == Reply::Ancestor(Ok(None))
            },
            SquashTargetError::NoTenureStart { height, nearby } => {
                let from = if start < 10 {
                    0
                } else {
                    start - 10
                };
                &&& height == start
                &&& self.is_canonical(db, start, self.started)
                &&& !self.started.sortition
                &&& db(
                    Request::NearbySnapshots {
                        from: from as u64,
                        to: (start + 10) as u64,
                        tip: self.tip.sortition_id,
                    },
                ) == Reply::Nearby(nearby)
            },
            SquashTargetError::NoNextSortition { next_height } => {
                &&& starts
                &&& next_height == start + 1
                &&& self.canonical_read(db, start + 1) == Reply::Ancestor(Ok(None))
            },
            SquashTargetError::TenureExtends { height, next_height } => {
                &&& starts
                &&& height == start
                &&& next_height == start + 1
                &&& self.is_canonical(db, start + 1, self.next)
                &&& !self.next.sortition
            },
            _ => false,
        }
    }

    /// Whether `e` is true of the blocks of the tenure, once that is known to be
    /// one burn block long.
    pub open spec fn blocks_fail<'a>(
        self,
        query: SquashTargetQuery<'a>,
        db: Databases<'a>,
        e: SquashTargetError<'a>,
    ) -> bool {
        let tenure = self.started.consensus_hash;
        let start = query.tenure_start_bitcoin_height as u64;
        let highest = db(Request::TenureEndHeader { height: start });
        let known = self.opens(query, db) && self.is_one_burn_block_long(query, db);
        match e {
            SquashTargetError::TenureEndLookup { height, cause } => {
                &&& known
                &&& height == start
                &&& highest == Reply::TenureEnd(Err(cause))
            },
            SquashTargetError::NoNakamotoBlocks { height } => {
                &&& known
                &&& height == start
                &&& highest == Reply::TenureEnd(Ok(None))
            },
            SquashTargetError::HighestBlockMismatch { tenure: expected, found } => {
                &&& known
                &&& highest matches Reply::TenureEnd(Ok(Some(end)))
                &&& expected == tenure
                &&& found == end.consensus_hash
                &&& found != expected
            },
            SquashTargetError::StacksHeightTooLarge { height } => {
                &&& self.goes_all_the_way(query, db)
                &&& height == self.start().stacks_block_height
                &&& height > u32::MAX
            },
            SquashTargetError::StartBurnViewMissing { block_id, stacks_height } => {
                &&& self.goes_all_the_way(query, db)
                &&& block_id == self.start().block_id
                &&& stacks_height == self.start().stacks_block_height
                &&& self.start().burn_view is None
            },
            SquashTargetError::EndBurnViewMissing { block_id, height } => {
                &&& self.goes_all_the_way(query, db)
                &&& self.start().stacks_block_height <= u32::MAX
                &&& self.start().burn_view is Some
                &&& block_id == self.end().block_id
                &&& height == self.end().stacks_block_height
                &&& self.end().burn_view is None
            },
            SquashTargetError::BurnViewMismatch { start_id, start_view, end_id, end_view } => {
                &&& self.goes_all_the_way(query, db)
                &&& self.start().stacks_block_height <= u32::MAX
                &&& start_id == self.start().block_id
                &&& end_id == self.end().block_id
                &&& self.start().burn_view == Some(start_view)
                &&& self.end().burn_view == Some(end_view)
                &&& start_view != end_view
            },
            _ => self.goes_back(query, db) && stops_at(db, tenure, self.chain.last(), e),
        }
    }

    /// Whether `e` is true of the burn view that the blocks of the tenure share,
    /// or of the runtime tip that it leads to.
    pub open spec fn boundary_fails<'a>(
        self,
        query: SquashTargetQuery<'a>,
        db: Databases<'a>,
        e: SquashTargetError<'a>,
    ) -> bool {
        let by_view = db(Request::SnapshotByConsensusHash { consensus_hash: self.burn_view });
        let at = self.boundary.block_height;
        let sortition = self.boundary.sortition_id;
        let runtime = db(Request::RuntimeTip { snapshot: self.boundary });
        match e {
            SquashTargetError::BurnViewLookup { burn_view, cause } => {
                &&& self.shares_the_burn_view(query, db)
                &&& burn_view == self.burn_view
                &&& by_view == Reply::Snapshot(Err(cause))
            },
            SquashTargetError::NoBurnViewSnapshot { burn_view } => {
                &&& self.shares_the_burn_view(query, db)
                &&& burn_view == self.burn_view
                &&& by_view == Reply::Snapshot(Ok(None))
            },
            SquashTargetError::CanonicalAncestor { height, cause } => {
                &&& self.has_boundary(query, db)
                &&& height == at
                &&& self.canonical_read(db, at as int) == Reply::Ancestor(Err(cause))
            },
            SquashTargetError::NoCanonicalAncestor { height, burn_view } => {
                &&& self.has_boundary(query, db)
                &&& height == at
                &&& burn_view == self.burn_view
                &&& self.canonical_read(db, at as int) == Reply::Ancestor(Ok(None))
            },
            SquashTargetError::OrphanBurnView { burn_view, sortition_id, height } => {
                &&& self.has_boundary(query, db)
                &&& burn_view == self.burn_view
                &&& sortition_id == sortition
                &&& height == at
                &&& self.is_canonical(db, at as int, self.canonical)
                &&& self.canonical.sortition_id != sortition
            },
            SquashTargetError::BurnViewHeightTooLarge { height } => {
                &&& self.boundary_is_canonical(query, db)
                &&& height == at
                &&& at > u32::MAX
            },
            SquashTargetError::BurnViewBeforeTenure { squash_height, tenure_start } => {
                &&& self.boundary_is_canonical(query, db)
                &&& squash_height == at
                &&& tenure_start == query.tenure_start_bitcoin_height
                &&& at < tenure_start
            },
            SquashTargetError::BurnViewBeforeFirst { squash_height, first } => {
                &&& self.boundary_is_canonical(query, db)
                &&& squash_height == at
                &&& first == self.first_bitcoin_height
                &&& query.tenure_start_bitcoin_height <= at < first
            },
            SquashTargetError::RuntimeTipLookup { sortition_id, cause } => {
                &&& self.boundary_is_in_range(query, db)
                &&& sortition_id == sortition
                &&& runtime == Reply::Runtime(Err(cause))
            },
            SquashTargetError::NoRuntimeTip { sortition_id } => {
                &&& self.boundary_is_in_range(query, db)
                &&& sortition_id == sortition
                &&& runtime == Reply::Runtime(Ok(None))
            },
            SquashTargetError::RuntimeTipMismatch {
                sortition_id,
                runtime_id,
                runtime_height,
                end_id,
                end_height,
            } => {
                &&& self.has_runtime_tip(query, db)
                &&& sortition_id == sortition
                &&& runtime_id == self.runtime.block_id
                &&& runtime_height == self.runtime.stacks_block_height
                &&& end_id == self.end().block_id
                &&& end_height == self.end().stacks_block_height
                &&& runtime_id != end_id
            },
            SquashTargetError::RuntimeHeightMismatch { runtime_height, end_height } => {
                &&& self.has_runtime_tip(query, db)
                &&& self.runtime.block_id == self.end().block_id
                &&& runtime_height == self.runtime.stacks_block_height
                &&& end_height == self.end().stacks_block_height
                &&& runtime_height != end_height
            },
            SquashTargetError::RuntimeBurnViewMismatch { runtime_view, burn_view, sortition_id } => {
                &&& self.has_runtime_tip(query, db)
                &&& self.runtime.block_id == self.end().block_id
                &&& self.runtime.stacks_block_height == self.end().stacks_block_height
                &&& runtime_view == self.runtime.burn_view
                &&& burn_view == self.burn_view
                &&& sortition_id == sortition
                &&& runtime_view != burn_view
            },
            _ => false,
        }
    }

    /// Whether `db` holds up to what `e` says, and what `e` says.
    pub open spec fn bears_out<'a>(
        self,
        query: SquashTargetQuery<'a>,
        db: Databases<'a>,
        e: SquashTargetError<'a>,
    ) -> bool {
        ||| self.opening_fails(query, db, e)
        ||| self.start_fails(query, db, e)
        ||| self.blocks_fail(query, db, e)
        ||| self.boundary_fails(query, db, e)
    }
}

/// A resolution is refused exactly for what the databases hold: it gives `e` if
/// and only if everything that is looked at before is as it must be, and what `e`
/// says is so.
pub proof fn refuses_exactly_what_the_databases_bear_out<'a>(
    query: SquashTargetQuery<'a>,
    db: Databases<'a>,
    e: SquashTargetError<'a>,
)
    requires
        answering(db),
    ensures
        resolved(query, db) == Err::<CanonicalSquashTargets, _>(e) <==> exists|
            evidence: BoundaryEvidence,
        | #[trigger]
            evidence.bears_out(query, db, e),
{
    if resolved(query, db) == Err::<CanonicalSquashTargets, _>(e) {
        let evidence = evidence_of_refusal(query, db, e);
        assert(evidence.bears_out(query, db, e));
    }
    if exists|evidence: BoundaryEvidence| #[trigger] evidence.bears_out(query, db, e) {
        let evidence = choose|evidence: BoundaryEvidence| #[trigger]
            evidence.bears_out(query, db, e);
        evidence_gives_refusal(query, db, evidence, e);
    }
}

proof fn chain_to_the_stop<'a>(
    db: Databases<'a>,
    tenure: ConsensusHash,
    end: StacksHeader,
    e: SquashTargetError<'a>,
) -> (chain: Seq<StacksHeader>)
    requires
        answering(db),
        first_block_from(db, tenure, end) == Err::<StacksHeader, _>(e),
    ensures
        chain.len() > 0,
        chain[0] == end,
        forall|i: int| 0 <= i < chain.len() - 1 ==> #[trigger] is_link(db, tenure, chain, i),
        stops_at(db, tenure, chain.last(), e),
    decreases end.stacks_block_height,
{
    let parent_request = Request::ParentBlockId { block_id: end.block_id };
    assert(db(parent_request).answers(parent_request));
    let parent_id = db(parent_request)->Parent_0->Ok_0->0;
    let header_request = Request::BlockHeader { block_id: parent_id };
    assert(db(header_request).answers(header_request));
    if stops_at(db, tenure, end, e) {
        seq![end]
    } else {
        let parent = db(header_request)->Header_0->Ok_0->0;
        assert(is_parent(db, end, parent));
        let rest = chain_to_the_stop(db, tenure, parent, e);
        let chain = seq![end] + rest;
        assert forall|i: int| 0 <= i < chain.len() - 1 implies #[trigger] is_link(
            db,
            tenure,
            chain,
            i,
        ) by {
            if i > 0 {
                assert(is_link(db, tenure, rest, i - 1));
            }
        }
        assert(chain.last() == rest.last());
        chain
    }
}

proof fn chain_reaches_the_stop<'a>(
    db: Databases<'a>,
    tenure: ConsensusHash,
    chain: Seq<StacksHeader>,
    e: SquashTargetError<'a>,
)
    requires
        chain.len() > 0,
        forall|i: int| 0 <= i < chain.len() - 1 ==> #[trigger] is_link(db, tenure, chain, i),
        stops_at(db, tenure, chain.last(), e),
    ensures
        first_block_from(db, tenure, chain[0]) == Err::<StacksHeader, _>(e),
    decreases chain.len(),
{
    if chain.len() > 1 {
        let rest = chain.skip(1);
        assert(is_link(db, tenure, chain, 0));
        assert forall|i: int| 0 <= i < rest.len() - 1 implies #[trigger] is_link(
            db,
            tenure,
            rest,
            i,
        ) by {
            assert(is_link(db, tenure, chain, i + 1));
        }
        chain_reaches_the_stop(db, tenure, rest, e);
    }
}

proof fn evidence_of_refusal<'a>(
    query: SquashTargetQuery<'a>,
    db: Databases<'a>,
    e: SquashTargetError<'a>,
) -> (evidence: BoundaryEvidence)
    requires
        answering(db),
        resolved(query, db) == Err::<CanonicalSquashTargets, _>(e),
    ensures
        evidence.bears_out(query, db, e),
{
    let height = query.tenure_start_bitcoin_height as u64;
    let chainstate_request = Request::OpenChainstate {
        mainnet: query.mainnet,
        chain_id: query.chain_id,
        root: query.chainstate_root,
    };
    let sortition_request = Request::OpenSortitionDb {
        dir: query.sortition_db_dir,
        pox_constants: query.pox_constants,
    };
    assert(db(chainstate_request).answers(chainstate_request));
    assert(db(sortition_request).answers(sortition_request));
    assert(db(Request::CanonicalBurnTip).answers(Request::CanonicalBurnTip));
    let tip = db(Request::CanonicalBurnTip)->BurnTip_0->Ok_0;
    let start_request = Request::AncestorSnapshot { height, tip: tip.sortition_id };
    let next_request = Request::AncestorSnapshot {
        height: (height + 1) as u64,
        tip: tip.sortition_id,
    };
    assert(db(start_request).answers(start_request));
    assert(db(next_request).answers(next_request));
    let hint_request = nearby_request(height, tip.sortition_id);
    assert(db(hint_request).answers(hint_request));
    let started = db(start_request)->Ancestor_0->Ok_0->0;
    let tenure = started.consensus_hash;
    let end_request = Request::TenureEndHeader { height };
    assert(db(end_request).answers(end_request));
    let end = db(end_request)->TenureEnd_0->Ok_0->0;
    let (chain, before) = match first_block_from(db, tenure, end) {
        Ok(start) => chain_to_first_block(db, tenure, end, start),
        Err(stop) => (chain_to_the_stop(db, tenure, end, stop), end),
    };
    first_block_is_not_above(db, tenure, end);
    let burn_view = chain.last().burn_view->0;
    let view_request = Request::SnapshotByConsensusHash { consensus_hash: burn_view };
    assert(db(view_request).answers(view_request));
    let boundary = db(view_request)->Snapshot_0->Ok_0->0;
    let canonical_request = Request::AncestorSnapshot {
        height: boundary.block_height,
        tip: tip.sortition_id,
    };
    assert(db(canonical_request).answers(canonical_request));
    let runtime_request = Request::RuntimeTip { snapshot: boundary };
    assert(db(runtime_request).answers(runtime_request));
    BoundaryEvidence {
        first_bitcoin_height: db(sortition_request)->SortitionDb_0->Ok_0 as u32,
        tip,
        started,
        next: db(next_request)->Ancestor_0->Ok_0->0,
        chain,
        before,
        burn_view,
        boundary,
        canonical: db(canonical_request)->Ancestor_0->Ok_0->0,
        runtime: db(runtime_request)->Runtime_0->Ok_0->0,
    }
}

proof fn evidence_gives_refusal<'a>(
    query: SquashTargetQuery<'a>,
    db: Databases<'a>,
    evidence: BoundaryEvidence,
    e: SquashTargetError<'a>,
)
    requires
        evidence.bears_out(query, db, e),
    ensures
        resolved(query, db) == Err::<CanonicalSquashTargets, _>(e),
{
    let tenure = evidence.started.consensus_hash;
    if evidence.goes_all_the_way(query, db) {
        chain_reaches_first_block(db, tenure, evidence.chain, evidence.before);
        first_block_is_not_above(db, tenure, evidence.end());
    }
    if evidence.goes_back(query, db) && stops_at(db, tenure, evidence.chain.last(), e) {
        chain_reaches_the_stop(db, tenure, evidence.chain, e);
    }
}

} // verus!
