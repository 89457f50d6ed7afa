//! The walk from the last block of a tenure back to its first.

use crate::chain::{Lookup, StacksHeader};
use crate::error::SquashTargetError;
use crate::ids::{ConsensusHash, StacksBlockId};
use vstd::prelude::*;

verus! {

/// A walk back through the parents of the last block of a tenure.
#[derive(Debug, Clone, Copy, PartialEq, Eq)]
pub struct AncestorWalk {
    /// The tenure to stay in.
    pub tenure: ConsensusHash,
    /// Header that the walk began at.
    pub end: StacksHeader,
    /// Header that the walk has come to, a block of the tenure.
    pub cursor: StacksHeader,
    /// Number of parent links followed so far.
    pub steps: u64,
}

/// Where one more parent header takes a walk.
#[derive(Debug, Clone, Copy, PartialEq, Eq)]
pub enum WalkStep {
    /// The parent belongs to another tenure: this is the first block.
    Arrived(StacksHeader),
    /// The parent belongs to the tenure: go on from there.
    Onward(AncestorWalk),
}

/// The walk through `tenure` that begins at `end`.
pub open spec fn walk_outcome<'a>(tenure: ConsensusHash, end: StacksHeader) -> Result<
    AncestorWalk,
    SquashTargetError<'a>,
> {
    if end.consensus_hash != tenure {
        Err(SquashTargetError::EndHeaderMismatch { tenure, found: end.consensus_hash })
    } else {
        Ok(AncestorWalk { tenure, end, cursor: end, steps: 0 })
    }
}

/// Begins the walk from the last block of a tenure back to its first. The block
/// must belong to the tenure.
pub fn find_tenure_start_ancestor_from_end<'a>(tenure: &ConsensusHash, end: &StacksHeader) -> (r:
    Result<AncestorWalk, SquashTargetError<'a>>)
    ensures
        r == walk_outcome(*tenure, *end),
{
    if end.consensus_hash == *tenure {
        Ok(AncestorWalk { tenure: *tenure, end: *end, cursor: *end, steps: 0 })
    } else {
        Err(
            SquashTargetError::EndHeaderMismatch { tenure: *tenure, found: end.consensus_hash },
        )
    }
}

impl AncestorWalk {
    /// The parent of the block that the walk has come to.
    pub open spec fn parent_outcome<'a>(self, found: Lookup<StacksBlockId>) -> Result<
        StacksBlockId,
        SquashTargetError<'a>,
    > {
        let block_id = self.cursor.block_id;
        match found {
            Err(cause) => Err(SquashTargetError::ParentLookup { block_id, cause }),
            Ok(None) => Err(
                SquashTargetError::NoParentRow {
                    block_id,
                    height: self.cursor.stacks_block_height,
                },
            ),
            Ok(Some(parent_id)) => Ok(parent_id),
        }
    }

    /// Takes the identifier of the parent of the block that the walk has come to.
    pub fn parent<'a>(&self, found: Lookup<StacksBlockId>) -> (r: Result<
        StacksBlockId,
        SquashTargetError<'a>,
    >)
        ensures
            r == self.parent_outcome(found),
    {
        let block_id = self.cursor.block_id;
        match found {
            Err(cause) => Err(SquashTargetError::ParentLookup { block_id, cause }),
            Ok(None) => Err(
                SquashTargetError::NoParentRow {
                    block_id,
                    height: self.cursor.stacks_block_height,
                },
            ),
            Ok(Some(parent_id)) => Ok(parent_id),
        }
    }

    /// Where the header of the parent takes the walk. The walk follows one more
    /// link than the block that it began at is high, and no more.
    pub open spec fn step_outcome<'a>(
        self,
        parent_id: StacksBlockId,
        found: Lookup<StacksHeader>,
    ) -> Result<WalkStep, SquashTargetError<'a>> {
        match found {
            Err(cause) => Err(SquashTargetError::ParentHeaderLookup { parent_id, cause }),
            Ok(None) => Err(
                SquashTargetError::MissingParent {
                    block_id: self.cursor.block_id,
                    height: self.cursor.stacks_block_height,
                    parent_id,
                },
            ),
            Ok(Some(parent)) => if parent.consensus_hash != self.tenure {
                Ok(WalkStep::Arrived(self.cursor))
            } else if parent.stacks_block_height >= self.cursor.stacks_block_height {
                Err(
                    SquashTargetError::HeightNotDecreasing {
                        parent_id,
                        parent_height: parent.stacks_block_height,
                        child_id: self.cursor.block_id,
                        child_height: self.cursor.stacks_block_height,
                    },
                )
            } else if self.steps >= self.end.stacks_block_height {
                Err(
                    SquashTargetError::AncestorNotFound {
                        tenure: self.tenure,
                        height: self.end.stacks_block_height,
                        end_id: self.end.block_id,
                    },
                )
            } else {
                Ok(
                    WalkStep::Onward(
                        AncestorWalk { cursor: parent, steps: (self.steps + 1) as u64, ..self },
                    ),
                )
            },
        }
    }

    /// Takes the header of the parent of the block that the walk has come to.
    pub fn step<'a>(&self, parent_id: StacksBlockId, found: Lookup<StacksHeader>) -> (r: Result<
        WalkStep,
        SquashTargetError<'a>,
    >)
        ensures
            r == self.step_outcome(parent_id, found),
    {
        let parent = match found {
            Err(cause) => {
                return Err(SquashTargetError::ParentHeaderLookup { parent_id, cause });
            },
            Ok(None) => {
                return Err(
                    SquashTargetError::MissingParent {
                        block_id: self.cursor.block_id,
                        height: self.cursor.stacks_block_height,
                        parent_id,
                    },
                );
            },
            Ok(Some(parent)) => parent,
        };
        let in_tenure = parent.consensus_hash == self.tenure;
        if !in_tenure {
            return Ok(WalkStep::Arrived(self.cursor));
        }
        if parent.stacks_block_height >= self.cursor.stacks_block_height {
            return Err(
                SquashTargetError::HeightNotDecreasing {
                    parent_id,
                    parent_height: parent.stacks_block_height,
                    child_id: self.cursor.block_id,
                    child_height: self.cursor.stacks_block_height,
                },
            );
        }
        if self.steps >= self.end.stacks_block_height {
            return Err(
                SquashTargetError::AncestorNotFound {
                    tenure: self.tenure,
                    height: self.end.stacks_block_height,
                    end_id: self.end.block_id,
                },
            );
        }
        Ok(
            WalkStep::Onward(
                AncestorWalk {
                    tenure: self.tenure,
                    end: self.end,
                    cursor: parent,
                    steps: self.steps + 1,
                },
            ),
        )
    }

    /// What every walk keeps: it is inside its tenure, and has come down at
    /// least one Stacks height per link.
    pub open spec fn wf(self) -> bool {
        &&& self.end.consensus_hash == self.tenure
        &&& self.cursor.consensus_hash == self.tenure
        &&& self.cursor.stacks_block_height + self.steps <= self.end.stacks_block_height
    }
}

/// A walk that begins is well-formed.
pub proof fn walk_begins_well_formed<'a>(tenure: ConsensusHash, end: StacksHeader)
    ensures
        walk_outcome::<'a>(tenure, end) matches Ok(walk) ==> walk.wf() && walk.cursor == end,
{
}

/// A well-formed walk never runs out of links: whatever the parent turns out to
/// be, the walk arrives, goes on well-formed and strictly lower, or meets an
/// inconsistency of the databases. The first block that it arrives at belongs
/// to the tenure and is no higher than the block that the walk began at.
pub proof fn walk_never_runs_out<'a>(
    walk: AncestorWalk,
    parent_id: StacksBlockId,
    found: Lookup<StacksHeader>,
)
    requires
        walk.wf(),
    ensures
        match walk.step_outcome::<'a>(parent_id, found) {
            Ok(WalkStep::Arrived(start)) => {
                &&& start == walk.cursor
                &&& start.consensus_hash == walk.tenure
                &&& start.stacks_block_height <= walk.end.stacks_block_height
            },
            Ok(WalkStep::Onward(next)) => {
                &&& next.wf()
                &&& next.tenure == walk.tenure
                &&& next.end == walk.end
                &&& next.cursor.stacks_block_height < walk.cursor.stacks_block_height
            },
            Err(e) => !(e is AncestorNotFound),
        },
{
}

/// A walk begins exactly at a block of the tenure, with no link followed; a
/// refusal names the two tenures that differ.
pub proof fn walk_begins_in_the_tenure<'a>(tenure: ConsensusHash, end: StacksHeader)
    ensures
        match walk_outcome::<'a>(tenure, end) {
            Ok(walk) => {
                &&& end.consensus_hash == tenure
                &&& walk.tenure == tenure
                &&& walk.end == end
                &&& walk.cursor == end
                &&& walk.steps == 0
            },
            Err(SquashTargetError::EndHeaderMismatch { tenure: expected, found }) => {
                &&& expected == tenure
                &&& found == end.consensus_hash
                &&& found != expected
            },
            Err(_) => false,
        },
{
}

/// The parent is the one read; a refusal names the block that the walk has come
/// to and how the read failed.
pub proof fn parent_is_the_one_read<'a>(walk: AncestorWalk, read: Lookup<StacksBlockId>)
    ensures
        match walk.parent_outcome::<'a>(read) {
            Ok(parent_id) => read == Ok::<_, String>(Some(parent_id)),
            Err(SquashTargetError::ParentLookup { block_id, cause }) => {
                &&& block_id == walk.cursor.block_id
                &&& read == Err::<Option<StacksBlockId>, _>(cause)
            },
            Err(SquashTargetError::NoParentRow { block_id, height }) => {
                &&& block_id == walk.cursor.block_id
                &&& height == walk.cursor.stacks_block_height
                &&& read == Ok::<_, String>(None::<StacksBlockId>)
            },
            Err(_) => false,
        },
{
}

/// A step arrives where it was exactly if the parent belongs to another tenure;
/// it goes on to the parent, with one more link followed and the rest of the
/// walk unchanged, exactly if that belongs to the tenure, lies lower, and there
/// are links left to follow. A refusal names the first of these that fails.
pub proof fn step_follows_the_parent<'a>(
    walk: AncestorWalk,
    parent_id: StacksBlockId,
    read: Lookup<StacksHeader>,
)
    ensures
        match walk.step_outcome::<'a>(parent_id, read) {
            Ok(WalkStep::Arrived(start)) => {
                &&& start == walk.cursor
                &&& read matches Ok(Some(parent))
                &&& parent.consensus_hash != walk.tenure
            },
            Ok(WalkStep::Onward(next)) => {
                &&& read == Ok::<_, String>(Some(next.cursor))
                &&& next.cursor.consensus_hash == walk.tenure
                &&& next.cursor.stacks_block_height < walk.cursor.stacks_block_height
                &&& next.steps == walk.steps + 1
                &&& next.steps <= walk.end.stacks_block_height
                &&& next.tenure == walk.tenure
                &&& next.end == walk.end
            },
            Err(SquashTargetError::ParentHeaderLookup { parent_id: parent, cause }) => {
                &&& parent == parent_id
                &&& read == Err::<Option<StacksHeader>, _>(cause)
            },
            Err(SquashTargetError::MissingParent { block_id, height, parent_id: parent }) => {
                &&& block_id == walk.cursor.block_id
                &&& height == walk.cursor.stacks_block_height
                &&& parent == parent_id
                &&& read == Ok::<_, String>(None::<StacksHeader>)
            },
            Err(
                SquashTargetError::HeightNotDecreasing {
                    parent_id: parent,
                    parent_height,
                    child_id,
                    child_height,
                },
            ) => {
                &&& parent == parent_id
                &&& child_id == walk.cursor.block_id
                &&& child_height == walk.cursor.stacks_block_height
                &&& read matches Ok(Some(header))
                &&& header.consensus_hash == walk.tenure
                &&& parent_height == header.stacks_block_height
                &&& parent_height >= child_height
            },
            Err(SquashTargetError::AncestorNotFound { tenure, height, end_id }) => {
                &&& tenure == walk.tenure
                &&& height == walk.end.stacks_block_height
                &&& end_id == walk.end.block_id
                &&& read matches Ok(Some(header))
                &&& header.consensus_hash == walk.tenure
                &&& header.stacks_block_height < walk.cursor.stacks_block_height
                &&& walk.steps >= height
            },
            Err(_) => false,
        },
{
}

} // verus!
