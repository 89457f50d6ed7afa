//! Rules on what is read from the source and output databases of a squash.

use crate::ids::StacksBlockId;
use vstd::prelude::*;

verus! {

/// Selects the columns of the network identity.
pub const DB_CONFIG_QUERY: &'static str = "SELECT mainnet, chain_id FROM db_config LIMIT 1";

/// Selects the blocks that the index DB knows, from the lowest up.
pub const BLOCK_HEADERS_QUERY: &'static str =
    "SELECT index_block_hash, block_height FROM block_headers ORDER BY block_height";

/// How a MARF is opened for a read-only scan, where it differs from the
/// defaults.
#[derive(Debug, Clone, Copy, PartialEq, Eq)]
pub struct MarfOpenOpts {
    /// Whether the node blobs are in a file of their own.
    pub external_blobs: bool,
}

/// The path of the file that holds the node blobs of the MARF at `db_path`.
pub fn blobs_sidecar_path(db_path: &str) -> (path: String)
    ensures
        path@ == db_path@ + ".blobs"@,
        path@ == db_path@.push('.').push('b').push('l').push('o').push('b').push('s'),
{
    proof {
        reveal_strlit(".blobs");
    }
    String::from_str(db_path).concat(".blobs")
}

/// Open options for scanning a MARF, given whether its blobs sidecar is there:
/// it is for Clarity, for Index and for squashed sortitions, and it is not for
/// an archival sortition.
pub fn read_marf_open_opts(sidecar_exists: bool) -> (opts: MarfOpenOpts)
    ensures
        opts.external_blobs == sidecar_exists,
{
    MarfOpenOpts { external_blobs: sidecar_exists }
}

/// Network identity read from the `db_config` of a chainstate index DB.
#[derive(Debug, Clone, Copy, PartialEq, Eq)]
pub struct DbConfig {
    /// Whether the chainstate belongs to mainnet.
    pub mainnet: bool,
    /// Identifier of the chain.
    pub chain_id: u32,
}

/// Why the network identity could not be read.
#[derive(Debug, PartialEq, Eq)]
pub enum DbConfigError<'a> {
    /// The index DB could not be opened.
    Open {
        /// Path of the DB.
        path: &'a str,
        /// Why it could not.
        cause: String,
    },
    /// The `db_config` row could not be read.
    Read {
        /// Why it could not.
        cause: String,
    },
}

impl<'a> DbConfigError<'a> {
    /// The message of the error.
    pub open spec fn text(self) -> Seq<char> {
        match self {
            DbConfigError::Open { path, cause } => "Failed to open index DB '"@ + path@
                + "' for db_config: "@ + cause@,
            DbConfigError::Read { cause } => "Failed to read db_config: "@ + cause@,
        }
    }

    /// Renders the error for the operator.
    pub fn message(&self) -> (s: String)
        ensures
            s@ == self.text(),
    {
        match self {
            DbConfigError::Open { path, cause } => String::from_str(
                "Failed to open index DB '",
            ).concat(path).concat("' for db_config: ").concat(cause.as_str()),
            DbConfigError::Read { cause } => String::from_str("Failed to read db_config: ").concat(
                cause.as_str(),
            ),
        }
    }
}

/// The network identity that a `db_config` row stands for: any number but zero
/// means mainnet, and the chain identifier is the low 32 bits of its column.
pub open spec fn row_identity(row: (i64, i64)) -> DbConfig {
    DbConfig { mainnet: row.0 != 0, chain_id: (row.1 as int % 0x1_0000_0000) as u32 }
}

/// The low 32 bits of a signed column.
fn low_bits(column: i64) -> (bits: u32)
    ensures
        bits == column as int % 0x1_0000_0000,
{
    let bits: u32 = #[verifier::truncate]
    (column as u32);
    proof {
        assert(0 <= column ==> column as u32 == column % 0x1_0000_0000) by (bit_vector);
        assert(column < 0 ==> column as u32 == (column + 0x1_0000_0000_0000_0000) % 0x1_0000_0000)
            by (bit_vector);
    }
    bits
}

/// The network identity in the `mainnet` and `chain_id` columns of a
/// `db_config` row.
pub fn read_db_config_from_conn<'a>(row: Result<(i64, i64), String>) -> (r: Result<
    DbConfig,
    DbConfigError<'a>,
>)
    ensures
        r == match row {
            Ok(row) => Ok(row_identity(row)),
            Err(cause) => Err(DbConfigError::Read { cause }),
        },
        r is Ok <==> row is Ok,
        row matches Ok(row) ==> r matches Ok(identity) && {
            &&& identity.mainnet <==> row.0 != 0
            &&& (row.1 - identity.chain_id) % 0x1_0000_0000 == 0
        },
{
    match row {
        Ok((mainnet, chain_id)) => Ok(
            DbConfig { mainnet: mainnet != 0, chain_id: low_bits(chain_id) },
        ),
        Err(cause) => Err(DbConfigError::Read { cause }),
    }
}

/// The network identity in the index DB at `index_db_path`, given whether the
/// DB could be opened and what its `db_config` row was.
pub fn read_db_config<'a>(
    index_db_path: &'a str,
    opened: Result<Result<(i64, i64), String>, String>,
) -> (r: Result<DbConfig, DbConfigError<'a>>)
    ensures
        r == match opened {
            Ok(Ok(row)) => Ok(row_identity(row)),
            Ok(Err(cause)) => Err(DbConfigError::Read { cause }),
            Err(cause) => Err(DbConfigError::Open { path: index_db_path, cause }),
        },
        r is Ok <==> opened matches Ok(Ok(_)),
        opened matches Ok(Ok(row)) ==> r matches Ok(identity) && {
            &&& identity.mainnet <==> row.0 != 0
            &&& (row.1 - identity.chain_id) % 0x1_0000_0000 == 0
        },
{
    match opened {
        Ok(row) => read_db_config_from_conn(row),
        Err(cause) => Err(DbConfigError::Open { path: index_db_path, cause }),
    }
}

/// A row of the `block_headers` table.
#[derive(Debug, Clone, Copy, PartialEq, Eq)]
pub struct BlockHeaderRow {
    /// Identifier of the block.
    pub index_block_hash: StacksBlockId,
    /// Height of the block.
    pub block_height: u64,
}

/// What the query for the `block_headers` rows, in order of height, gave back.
#[derive(Debug, PartialEq, Eq)]
pub enum BlockHeadersRead {
    /// The query could not be prepared.
    PrepareFailed(String),
    /// The query could not be run.
    QueryFailed(String),
    /// Each row in turn, or why it could not be read.
    Rows(Vec<Result<BlockHeaderRow, String>>),
}

/// Why the expected block files could not be derived.
#[derive(Debug, PartialEq, Eq)]
pub enum BlockHeadersError {
    /// The query could not be prepared.
    Prepare {
        /// Why it could not.
        cause: String,
    },
    /// The query could not be run.
    Query {
        /// Why it could not.
        cause: String,
    },
    /// A row could not be read.
    Row {
        /// Why it could not.
        cause: String,
    },
}

impl BlockHeadersError {
    /// The message of the error.
    pub open spec fn text(self) -> Seq<char> {
        match self {
            BlockHeadersError::Prepare { cause } => "prepare block_headers query: "@ + cause@,
            BlockHeadersError::Query { cause } => "query block_headers: "@ + cause@,
            BlockHeadersError::Row { cause } => "read block_headers row: "@ + cause@,
        }
    }

    /// Renders the error for the operator.
    pub fn message(&self) -> (s: String)
        ensures
            s@ == self.text(),
    {
        match self {
            BlockHeadersError::Prepare { cause } => String::from_str(
                "prepare block_headers query: ",
            ).concat(cause.as_str()),
            BlockHeadersError::Query { cause } => String::from_str("query block_headers: ").concat(
                cause.as_str(),
            ),
            BlockHeadersError::Row { cause } => String::from_str("read block_headers row: ").concat(
                cause.as_str(),
            ),
        }
    }
}

/// Whether a row stands for a block with a file of its own. The genesis block,
/// at height zero, has none.
pub open spec fn has_block_file(row: Result<BlockHeaderRow, String>) -> bool {
    row matches Ok(row) && row.block_height != 0
}

/// The rows of the blocks whose files are expected, in the order of the rows.
pub open spec fn expected_rows(rows: Seq<Result<BlockHeaderRow, String>>) -> Seq<BlockHeaderRow> {
    rows.filter(|row: Result<BlockHeaderRow, String>| has_block_file(row)).map_values(
        |row: Result<BlockHeaderRow, String>| row->Ok_0,
    )
}

/// Whether `paths` holds what `rel_path` gives for each block of `expected`, in
/// the same order.
pub open spec fn are_paths_of<F: Fn(&StacksBlockId) -> String>(
    rel_path: F,
    expected: Seq<BlockHeaderRow>,
    paths: Seq<String>,
) -> bool {
    &&& paths.len() == expected.len()
    &&& forall|i: int|
        0 <= i < expected.len() ==> call_ensures(
            rel_path,
            (&expected[i].index_block_hash,),
            #[trigger] paths[i],
        )
}

/// Whether `r` is what deriving the paths for `rows` comes to: the paths of the
/// expected blocks if every row was read, and else the first row that was not.
pub open spec fn is_derived_from<F: Fn(&StacksBlockId) -> String>(
    rel_path: F,
    rows: Seq<Result<BlockHeaderRow, String>>,
    r: Result<Vec<String>, BlockHeadersError>,
) -> bool {
    match r {
        Ok(paths) => {
            &&& forall|i: int| 0 <= i < rows.len() ==> rows[i] is Ok
            &&& are_paths_of(rel_path, expected_rows(rows), paths@)
        },
        Err(e) => exists|k: int|
            {
                &&& 0 <= k < rows.len()
                &&& forall|i: int| 0 <= i < k ==> rows[i] is Ok
                &&& #[trigger] rows[k] matches Err(cause)
                &&& e == (BlockHeadersError::Row { cause })
            },
    }
}

/// How many of the rows put a block above genesis.
pub open spec fn blocks_above_genesis(rows: Seq<Result<BlockHeaderRow, String>>) -> nat
    decreases rows.len(),
{
    if rows.len() == 0 {
        0
    } else {
        let before = blocks_above_genesis(rows.drop_last());
        match rows.last() {
            Ok(row) if row.block_height > 0 => before + 1,
            _ => before,
        }
    }
}

/// The relative paths of the block files that the `block_headers` rows call
/// for, in the order of the rows. `rel_path` gives the path of one block's file.
pub fn derive_expected_epoch2_block_rel_paths<F: Fn(&StacksBlockId) -> String>(
    read: BlockHeadersRead,
    rel_path: F,
) -> (r: Result<Vec<String>, BlockHeadersError>)
    requires
        forall|id: StacksBlockId| #[trigger] call_requires(rel_path, (&id,)),
    ensures
        match read {
            BlockHeadersRead::PrepareFailed(cause) => r == Err::<Vec<String>, BlockHeadersError>(
                BlockHeadersError::Prepare { cause },
            ),
            BlockHeadersRead::QueryFailed(cause) => r == Err::<Vec<String>, BlockHeadersError>(
                BlockHeadersError::Query { cause },
            ),
            BlockHeadersRead::Rows(rows) => is_derived_from(rel_path, rows@, r),
        },
        read matches BlockHeadersRead::Rows(rows) ==> {
            &&& r is Ok <==> forall|i: int| 0 <= i < rows@.len() ==> rows@[i] is Ok
            &&& r matches Ok(paths) ==> {
                &&& paths@.len() == blocks_above_genesis(rows@)
                &&& forall|k: int|
                    #![trigger rows@[k]]
                    0 <= k < rows@.len() && rows@[k]->Ok_0.block_height > 0 ==> {
                        let place = blocks_above_genesis(rows@.take(k)) as int;
                        &&& place < paths@.len()
                        &&& call_ensures(
                            rel_path,
                            (&rows@[k]->Ok_0.index_block_hash,),
                            paths@[place],
                        )
                    }
            }
        },
{
    let rows = match read {
        BlockHeadersRead::PrepareFailed(cause) => {
            return Err(BlockHeadersError::Prepare { cause });
        },
        BlockHeadersRead::QueryFailed(cause) => {
            return Err(BlockHeadersError::Query { cause });
        },
        BlockHeadersRead::Rows(rows) => rows,
    };
    let mut paths: Vec<String> = Vec::new();
    let mut i: usize = 0;
    while i < rows.len()
        invariant
            read == BlockHeadersRead::Rows(rows),
            forall|id: StacksBlockId| #[trigger] call_requires(rel_path, (&id,)),
            i <= rows@.len(),
            forall|j: int| 0 <= j < i ==> rows@[j] is Ok,
            are_paths_of(rel_path, expected_rows(rows@.take(i as int)), paths@),
        decreases rows@.len() - i,
    {
        let row: BlockHeaderRow = match &rows[i] {
            Err(cause) => {
                return Err(BlockHeadersError::Row { cause: cause.clone() });
            },
            Ok(row) => *row,
        };
        proof {
            expected_rows_step(rows@, i as int);
        }
        if row.block_height != 0 {
            paths.push(rel_path(&row.index_block_hash));
        }
        i = i + 1;
    }
    proof {
        assert(rows@.take(i as int) =~= rows@);
        every_block_above_genesis_has_its_path(rel_path, rows@, Ok(paths));
    }
    Ok(paths)
}

/// One more row adds its block, if that has a file, and nothing else.
proof fn expected_rows_step(rows: Seq<Result<BlockHeaderRow, String>>, i: int)
    requires
        0 <= i < rows.len(),
    ensures
        expected_rows(rows.take(i + 1)) == if has_block_file(rows[i]) {
            expected_rows(rows.take(i)).push(rows[i]->Ok_0)
        } else {
            expected_rows(rows.take(i))
        },
{
    let picks = |row: Result<BlockHeaderRow, String>| has_block_file(row);
    let seen = rows.take(i);
    assert(rows.take(i + 1) =~= seen.push(rows[i]));
    assert(seen.push(rows[i]).drop_last() =~= seen);
    reveal_with_fuel(Seq::filter, 2);
    assert(expected_rows(seen.push(rows[i])) =~= if picks(rows[i]) {
        expected_rows(seen).push(rows[i]->Ok_0)
    } else {
        expected_rows(seen)
    });
}

/// The blocks whose files are expected are those that some row puts above
/// genesis, and no others.
pub proof fn expected_rows_are_those_above_genesis(
    rows: Seq<Result<BlockHeaderRow, String>>,
    row: BlockHeaderRow,
)
    ensures
        expected_rows(rows).contains(row) <==> rows.contains(Ok(row)) && row.block_height != 0,
    decreases rows.len(),
{
    if rows.len() == 0 {
        assert(expected_rows(rows).len() == 0) by {
            reveal_with_fuel(Seq::filter, 1);
        }
    } else {
        let last = rows.len() - 1;
        let before = rows.take(last);
        expected_rows_are_those_above_genesis(before, row);
        expected_rows_step(rows, last);
        assert(rows.take(last + 1) =~= rows);
        assert(rows =~= before.push(rows[last]));
        let kept = expected_rows(before);
        if has_block_file(rows[last]) {
            let grown = kept.push(rows[last]->Ok_0);
            if kept.contains(row) {
                let j = choose|j: int| 0 <= j < kept.len() && kept[j] == row;
                assert(grown[j] == row);
            }
            if rows[last]->Ok_0 == row {
                assert(grown[kept.len() as int] == row);
            }
        }
        if before.contains(Ok(row)) {
            let j = choose|j: int| 0 <= j < before.len() && before[j] == Ok::<_, String>(row);
            assert(rows[j] == Ok::<_, String>(row));
        }
        if rows.contains(Ok(row)) {
            let j = choose|j: int| 0 <= j < rows.len() && rows[j] == Ok::<_, String>(row);
            if j < last {
                assert(before[j] == Ok::<_, String>(row));
            }
        }
    }
}

/// Rows that come in order of height give files in order of height.
pub proof fn expected_rows_keep_height_order(rows: Seq<Result<BlockHeaderRow, String>>)
    requires
        forall|i: int, j: int|
            0 <= i <= j < rows.len() && rows[i] is Ok && rows[j] is Ok ==> (#[trigger] rows[
                i
            ])->Ok_0.block_height <= (#[trigger] rows[j])->Ok_0.block_height,
    ensures
        forall|i: int, j: int|
            0 <= i <= j < expected_rows(rows).len() ==> expected_rows(rows)[i].block_height
                <= expected_rows(rows)[j].block_height,
    decreases rows.len(),
{
    if rows.len() == 0 {
        assert(expected_rows(rows).len() == 0) by {
            reveal_with_fuel(Seq::filter, 1);
        }
    } else {
        let last = rows.len() - 1;
        let before = rows.take(last);
        expected_rows_keep_height_order(before);
        expected_rows_step(rows, last);
        assert(rows.take(last + 1) =~= rows);
        let kept = expected_rows(before);
        assert forall|j: int| 0 <= j < kept.len() && rows[last] is Ok implies (
        #[trigger] kept[j]).block_height <= rows[last]->Ok_0.block_height by {
            expected_rows_are_those_above_genesis(before, kept[j]);
            let k = choose|k: int| 0 <= k < before.len() && before[k] == Ok::<_, String>(kept[j]);
            assert(rows[k] == before[k]);
        }
    }
}

/// The blocks above genesis are counted one by one: of rows in two parts there are
/// as many as of each part together, and a row counts once if it puts a block
/// above genesis and not at all if it does not.
pub proof fn blocks_above_genesis_add_up(
    a: Seq<Result<BlockHeaderRow, String>>,
    b: Seq<Result<BlockHeaderRow, String>>,
)
    ensures
        blocks_above_genesis(a + b) == blocks_above_genesis(a) + blocks_above_genesis(b),
        b.len() == 0 ==> blocks_above_genesis(b) == 0,
        b.len() == 1 ==> (blocks_above_genesis(b) == 1 <==> (b[0] matches Ok(row)
            && row.block_height != 0)),
        blocks_above_genesis(b) <= b.len(),
    decreases b.len(),
{
    if b.len() == 0 {
        assert(a + b =~= a);
    } else {
        assert((a + b).drop_last() =~= a + b.drop_last());
        blocks_above_genesis_add_up(a, b.drop_last());
    }
}

/// The paths are derived exactly if every row was read; there are then as many
/// as there are blocks above genesis, and each such block has its own place
/// among them: right after the paths of those before it.
pub proof fn every_block_above_genesis_has_its_path<F: Fn(&StacksBlockId) -> String>(
    rel_path: F,
    rows: Seq<Result<BlockHeaderRow, String>>,
    r: Result<Vec<String>, BlockHeadersError>,
)
    requires
        is_derived_from(rel_path, rows, r),
    ensures
        r is Ok <==> forall|i: int| 0 <= i < rows.len() ==> rows[i] is Ok,
        r matches Ok(paths) ==> {
            &&& paths@.len() == blocks_above_genesis(rows)
            &&& forall|k: int|
                #![trigger rows[k]]
                0 <= k < rows.len() && rows[k]->Ok_0.block_height > 0 ==> {
                    let place = blocks_above_genesis(rows.take(k)) as int;
                    &&& place < paths@.len()
                    &&& call_ensures(
                        rel_path,
                        (&rows[k]->Ok_0.index_block_hash,),
                        paths@[place],
                    )
                }
        },
        r matches Err(e) ==> exists|k: int|
            {
                &&& 0 <= k < rows.len()
                &&& forall|i: int| 0 <= i < k ==> rows[i] is Ok
                &&& #[trigger] rows[k] matches Err(cause)
                &&& e == (BlockHeadersError::Row { cause })
            },
{
    if let Ok(paths) = r {
        expected_rows_are_counted(rows);
        assert forall|k: int|
            #![trigger rows[k]]
            0 <= k < rows.len() && rows[k]->Ok_0.block_height > 0 implies {
            let place = blocks_above_genesis(rows.take(k)) as int;
            &&& place < paths@.len()
            &&& call_ensures(rel_path, (&rows[k]->Ok_0.index_block_hash,), paths@[place])
        } by {
            expected_row_has_its_place(rows, k);
            let place = blocks_above_genesis(rows.take(k)) as int;
            assert(call_ensures(
                rel_path,
                (&expected_rows(rows)[place].index_block_hash,),
                paths@[place],
            ));
        }
    }
}

proof fn expected_rows_are_counted(rows: Seq<Result<BlockHeaderRow, String>>)
    ensures
        expected_rows(rows).len() == blocks_above_genesis(rows),
    decreases rows.len(),
{
    if rows.len() == 0 {
        assert(expected_rows(rows).len() == 0) by {
            reveal_with_fuel(Seq::filter, 1);
        }
    } else {
        let last = rows.len() - 1;
        assert(rows.take(last) =~= rows.drop_last());
        assert(rows.take(last + 1) =~= rows);
        expected_rows_are_counted(rows.take(last));
        expected_rows_step(rows, last);
    }
}

proof fn expected_row_has_its_place(rows: Seq<Result<BlockHeaderRow, String>>, k: int)
    requires
        0 <= k < rows.len(),
        rows[k] is Ok,
        rows[k]->Ok_0.block_height > 0,
    ensures
        blocks_above_genesis(rows.take(k)) < expected_rows(rows).len(),
        expected_rows(rows)[blocks_above_genesis(rows.take(k)) as int] == rows[k]->Ok_0,
    decreases rows.len(),
{
    let last = rows.len() - 1;
    let before = rows.take(last);
    assert(rows.take(last + 1) =~= rows);
    expected_rows_step(rows, last);
    if k == last {
        expected_rows_are_counted(before);
    } else {
        assert(before.take(k) =~= rows.take(k));
        expected_row_has_its_place(before, k);
    }
}

/// Whether the heights of the rows above genesis rise strictly: the rows come in
/// order of height, and no two of them share one.
pub open spec fn rises_above_genesis(rows: Seq<Result<BlockHeaderRow, String>>) -> bool {
    forall|i: int, j: int|
        0 <= i < j < rows.len() && has_block_file(#[trigger] rows[i]) && has_block_file(
            #[trigger] rows[j],
        ) ==> rows[i]->Ok_0.block_height < rows[j]->Ok_0.block_height
}

/// Whether both hold the same rows above genesis.
pub open spec fn same_above_genesis(
    a: Seq<Result<BlockHeaderRow, String>>,
    b: Seq<Result<BlockHeaderRow, String>>,
) -> bool {
    forall|row: BlockHeaderRow|
        row.block_height != 0 ==> (#[trigger] a.contains(Ok(row)) <==> b.contains(Ok(row)))
}

/// Which files are expected, and in what order, depends on nothing but the rows
/// above genesis: two tables with the same such rows, each at a height of its
/// own, expect the same files, however the rows were inserted and whatever else
/// the tables hold.
pub proof fn expected_rows_ignore_insertion_and_genesis(
    a: Seq<Result<BlockHeaderRow, String>>,
    b: Seq<Result<BlockHeaderRow, String>>,
)
    requires
        rises_above_genesis(a),
        rises_above_genesis(b),
        same_above_genesis(a, b),
    ensures
        expected_rows(a) == expected_rows(b),
{
    expected_rows_rise(a);
    expected_rows_rise(b);
    assert forall|row: BlockHeaderRow|
        expected_rows(a).contains(row) <==> expected_rows(b).contains(row) by {
        expected_rows_are_those_above_genesis(a, row);
        expected_rows_are_those_above_genesis(b, row);
    }
    rising_rows_are_set_by_members(expected_rows(a), expected_rows(b));
}

/// Two tables with the same rows above genesis, each at a height of its own and
/// every row readable, give the same paths, if `rel_path` gives one path per
/// block.
pub proof fn same_blocks_give_the_same_paths<F: Fn(&StacksBlockId) -> String>(
    rel_path: F,
    a: Seq<Result<BlockHeaderRow, String>>,
    b: Seq<Result<BlockHeaderRow, String>>,
    from_a: Result<Vec<String>, BlockHeadersError>,
    from_b: Result<Vec<String>, BlockHeadersError>,
)
    requires
        forall|id: StacksBlockId, p: String, q: String|
            #![trigger call_ensures(rel_path, (&id,), p), call_ensures(rel_path, (&id,), q)]
            call_ensures(rel_path, (&id,), p) && call_ensures(rel_path, (&id,), q) ==> p@ == q@,
        forall|i: int| 0 <= i < a.len() ==> a[i] is Ok,
        forall|i: int| 0 <= i < b.len() ==> b[i] is Ok,
        rises_above_genesis(a),
        rises_above_genesis(b),
        same_above_genesis(a, b),
        is_derived_from(rel_path, a, from_a),
        is_derived_from(rel_path, b, from_b),
    ensures
        from_a is Ok,
        from_b is Ok,
        from_a->Ok_0@.map_values(|path: String| path@) == from_b->Ok_0@.map_values(
            |path: String| path@,
        ),
{
    expected_rows_ignore_insertion_and_genesis(a, b);
    let in_a = from_a->Ok_0@;
    let in_b = from_b->Ok_0@;
    assert forall|i: int| 0 <= i < in_a.len() implies (#[trigger] in_a[i])@ == in_b[i]@ by {
        let id = expected_rows(a)[i].index_block_hash;
        assert(call_ensures(rel_path, (&id,), in_a[i]));
        assert(call_ensures(rel_path, (&id,), in_b[i]));
    }
    assert(in_a.map_values(|path: String| path@) =~= in_b.map_values(|path: String| path@));
}

proof fn expected_rows_rise(rows: Seq<Result<BlockHeaderRow, String>>)
    requires
        rises_above_genesis(rows),
    ensures
        forall|i: int, j: int|
            0 <= i < j < expected_rows(rows).len() ==> expected_rows(rows)[i].block_height
                < expected_rows(rows)[j].block_height,
    decreases rows.len(),
{
    if rows.len() == 0 {
        assert(expected_rows(rows).len() == 0) by {
            reveal_with_fuel(Seq::filter, 1);
        }
    } else {
        let last = rows.len() - 1;
        let before = rows.take(last);
        assert(rises_above_genesis(before)) by {
            assert forall|i: int, j: int|
                0 <= i < j < before.len() && has_block_file(#[trigger] before[i])
                    && has_block_file(
                    #[trigger] before[j],
                ) implies before[i]->Ok_0.block_height < before[j]->Ok_0.block_height by {
                assert(rows[i] == before[i] && rows[j] == before[j]);
            }
        }
        expected_rows_rise(before);
        expected_rows_step(rows, last);
        assert(rows.take(last + 1) =~= rows);
        let kept = expected_rows(before);
        assert forall|j: int| 0 <= j < kept.len() && has_block_file(rows[last]) implies (
        #[trigger] kept[j]).block_height < rows[last]->Ok_0.block_height by {
            expected_rows_are_those_above_genesis(before, kept[j]);
            let k = choose|k: int| 0 <= k < before.len() && before[k] == Ok::<_, String>(kept[j]);
            assert(rows[k] == before[k]);
        }
    }
}

proof fn rising_rows_are_set_by_members(a: Seq<BlockHeaderRow>, b: Seq<BlockHeaderRow>)
    requires
        forall|i: int, j: int| 0 <= i < j < a.len() ==> a[i].block_height < a[j].block_height,
        forall|i: int, j: int| 0 <= i < j < b.len() ==> b[i].block_height < b[j].block_height,
        forall|row: BlockHeaderRow| #[trigger] a.contains(row) <==> b.contains(row),
    ensures
        a == b,
    decreases a.len(),
{
    if a.len() == 0 {
        if b.len() > 0 {
            assert(b.contains(b[0]));
            assert(a.contains(b[0]));
        }
        assert(a =~= b);
    } else {
        assert(a.contains(a.last()));
        let in_b = choose|k: int| 0 <= k < b.len() && b[k] == a.last();
        assert(b.contains(b.last()));
        assert(a.contains(b.last()));
        let in_a = choose|k: int| 0 <= k < a.len() && a[k] == b.last();
        assert(in_b == b.len() - 1);
        let a_rest = a.drop_last();
        let b_rest = b.drop_last();
        assert forall|row: BlockHeaderRow| #[trigger]
            a_rest.contains(row) <==> b_rest.contains(row) by {
            if a_rest.contains(row) {
                let i = choose|i: int| 0 <= i < a_rest.len() && a_rest[i] == row;
                assert(a[i] == row);
                assert(a.contains(row));
                let j = choose|j: int| 0 <= j < b.len() && b[j] == row;
                assert(b_rest[j] == row);
            }
            if b_rest.contains(row) {
                let j = choose|j: int| 0 <= j < b_rest.len() && b_rest[j] == row;
                assert(b[j] == row);
                assert(b.contains(row));
                assert(a.contains(row));
                let i = choose|i: int| 0 <= i < a.len() && a[i] == row;
                assert(a_rest[i] == row);
            }
        }
        rising_rows_are_set_by_members(a_rest, b_rest);
        assert(a =~= a_rest.push(a.last()));
        assert(b =~= b_rest.push(b.last()));
    }
}

/// Each column of a `db_config` row is read on its own: the row stands for
/// mainnet exactly if its first column is not zero, whatever the second holds,
/// and the chain identifier differs from the second column by a multiple of
/// 2^32, whatever the first holds.
pub proof fn each_column_is_read_alone(row: (i64, i64))
    ensures
        row_identity(row).mainnet <==> row.0 != 0,
        (row.1 - row_identity(row).chain_id) % 0x1_0000_0000 == 0,
{
}

/// The messages are fixed words before the cause, and around the path where there
/// is one, whatever these are.
pub proof fn database_messages_quote_their_facts<'a>() -> (words: Seq<Seq<char>>)
    ensures
        forall|path: &'a str, cause: String|
            #[trigger] (DbConfigError::Open { path, cause }).text() == words[0] + path@
                + words[1] + cause@,
        forall|cause: String|
            #[trigger] (DbConfigError::Read { cause }).text() == words[2] + cause@,
        forall|cause: String|
            #[trigger] (BlockHeadersError::Prepare { cause }).text() == words[3] + cause@,
        forall|cause: String|
            #[trigger] (BlockHeadersError::Query { cause }).text() == words[4] + cause@,
        forall|cause: String|
            #[trigger] (BlockHeadersError::Row { cause }).text() == words[5] + cause@,
{
    seq![
        "Failed to open index DB '"@,
        "' for db_config: "@,
        "Failed to read db_config: "@,
        "prepare block_headers query: "@,
        "query block_headers: "@,
        "read block_headers row: "@,
    ]
}

/// Two rows that agree in a column agree in what is read from it.
pub proof fn equal_columns_give_equal_identities(a: (i64, i64), b: (i64, i64))
    ensures
        a.0 == b.0 ==> row_identity(a).mainnet == row_identity(b).mainnet,
        a.1 == b.1 ==> row_identity(a).chain_id == row_identity(b).chain_id,
        row_identity(a).chain_id == row_identity(b).chain_id <==> (a.1 - b.1) % 0x1_0000_0000 == 0,
{
}

/// A chain identifier stored in a `db_config` row reads back as it was.
pub proof fn stored_chain_id_reads_back(mainnet: i64, chain_id: u32)
    ensures
        row_identity((mainnet, chain_id as i64)).chain_id == chain_id,
{
}

} // verus!
