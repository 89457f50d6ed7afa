use marf_squash::db::{
    blobs_sidecar_path, derive_expected_epoch2_block_rel_paths, read_db_config,
    read_db_config_from_conn, read_marf_open_opts, BlockHeaderRow, BlockHeadersError,
    BlockHeadersRead, DbConfig, DbConfigError, BLOCK_HEADERS_QUERY, DB_CONFIG_QUERY,
};
use marf_squash::ids::StacksBlockId;

fn row(byte: u8, block_height: u64) -> Result<BlockHeaderRow, String> {
    Ok(BlockHeaderRow { index_block_hash: StacksBlockId([byte; 32]), block_height })
}

fn path_of(id: &StacksBlockId) -> String {
    format!("blocks/{}", id.to_hex())
}

fn path(byte: u8) -> String {
    path_of(&StacksBlockId([byte; 32]))
}

#[test]
fn sidecar_path_appends_the_extension() {
    assert_eq!(blobs_sidecar_path("/gss/vm/index.sqlite"), "/gss/vm/index.sqlite.blobs");
    assert_eq!(blobs_sidecar_path(""), ".blobs");
}

#[test]
fn blobs_are_external_where_the_sidecar_is() {
    assert!(read_marf_open_opts(true).external_blobs);
    assert!(!read_marf_open_opts(false).external_blobs);
}

#[test]
fn db_config_row_gives_the_network_identity() {
    assert_eq!(
        read_db_config_from_conn(Ok((1, 1))),
        Ok(DbConfig { mainnet: true, chain_id: 1 })
    );
    assert_eq!(
        read_db_config_from_conn(Ok((0, 0x8000_0000))),
        Ok(DbConfig { mainnet: false, chain_id: 0x8000_0000 })
    );
    assert_eq!(
        read_db_config_from_conn(Ok((-3, 7))),
        Ok(DbConfig { mainnet: true, chain_id: 7 })
    );
}

#[test]
fn chain_id_is_cut_to_its_low_bits() {
    for column in [-1i64, i64::MIN, i64::MAX, 0x1_0000_0005, -0x1_0000_0005] {
        let config = read_db_config_from_conn(Ok((0, column))).unwrap();
        assert_eq!(config.chain_id, column as u32);
    }
    let config = read_db_config_from_conn(Ok((0, -1))).unwrap();
    assert_eq!(config.chain_id, 4_294_967_295);
}

#[test]
fn chain_id_reads_back_as_stored() {
    for chain_id in [0u32, 1, 0x8000_0000, u32::MAX] {
        let config = read_db_config_from_conn(Ok((1, i64::from(chain_id)))).unwrap();
        assert_eq!(config.chain_id, chain_id);
    }
}

#[test]
fn unread_db_config_is_reported() {
    let unread = read_db_config_from_conn(Err("no such table: db_config".to_string()));
    assert_eq!(
        unread,
        Err(DbConfigError::Read { cause: "no such table: db_config".to_string() })
    );
    assert_eq!(
        unread.unwrap_err().message(),
        "Failed to read db_config: no such table: db_config"
    );
}

#[test]
fn index_db_is_opened_before_it_is_read() {
    assert_eq!(
        read_db_config("index.sqlite", Ok(Ok((1, 1)))),
        Ok(DbConfig { mainnet: true, chain_id: 1 })
    );
    assert_eq!(
        read_db_config("index.sqlite", Ok(Err("empty".to_string()))),
        Err(DbConfigError::Read { cause: "empty".to_string() })
    );
    let closed = read_db_config("index.sqlite", Err("locked".to_string()));
    assert_eq!(
        closed,
        Err(DbConfigError::Open { path: "index.sqlite", cause: "locked".to_string() })
    );
    assert_eq!(
        closed.unwrap_err().message(),
        "Failed to open index DB 'index.sqlite' for db_config: locked"
    );
}

#[test]
fn genesis_has_no_block_file() {
    let rows = vec![row(1, 0), row(2, 1), row(3, 1), row(4, 2), row(5, 0)];
    assert_eq!(
        derive_expected_epoch2_block_rel_paths(BlockHeadersRead::Rows(rows), path_of),
        Ok(vec![path(2), path(3), path(4)])
    );
    assert_eq!(
        derive_expected_epoch2_block_rel_paths(BlockHeadersRead::Rows(vec![]), path_of),
        Ok(vec![])
    );
    assert_eq!(
        derive_expected_epoch2_block_rel_paths(BlockHeadersRead::Rows(vec![row(1, 0)]), path_of),
        Ok(vec![])
    );
}

#[test]
fn first_unread_row_is_reported() {
    let rows = vec![row(1, 1), Err("first".to_string()), row(2, 2), Err("second".to_string())];
    let refused = derive_expected_epoch2_block_rel_paths(BlockHeadersRead::Rows(rows), path_of);
    assert_eq!(refused, Err(BlockHeadersError::Row { cause: "first".to_string() }));
    assert_eq!(refused.unwrap_err().message(), "read block_headers row: first");
}

#[test]
fn failed_block_headers_query_is_reported() {
    let unprepared = derive_expected_epoch2_block_rel_paths(
        BlockHeadersRead::PrepareFailed("syntax".to_string()),
        path_of,
    );
    assert_eq!(unprepared, Err(BlockHeadersError::Prepare { cause: "syntax".to_string() }));
    assert_eq!(unprepared.unwrap_err().message(), "prepare block_headers query: syntax");
    let unrun = derive_expected_epoch2_block_rel_paths(
        BlockHeadersRead::QueryFailed("busy".to_string()),
        path_of,
    );
    assert_eq!(unrun, Err(BlockHeadersError::Query { cause: "busy".to_string() }));
    assert_eq!(unrun.unwrap_err().message(), "query block_headers: busy");
}

#[test]
fn queries_select_what_the_rules_expect() {
    let conn = rusqlite::Connection::open_in_memory().unwrap();
    conn.execute_batch(
        "CREATE TABLE db_config (version TEXT, mainnet INTEGER, chain_id INTEGER);
         INSERT INTO db_config VALUES ('1', 0, 2147483648);
         CREATE TABLE block_headers (index_block_hash BLOB, block_height INTEGER);
         INSERT INTO block_headers VALUES (x'03', 3), (x'00', 0), (x'01', 1), (x'02', 2);",
    )
    .unwrap();

    let columns = conn
        .query_row(DB_CONFIG_QUERY, [], |r| Ok((r.get(0)?, r.get(1)?)))
        .map_err(|e: rusqlite::Error| e.to_string());
    assert_eq!(
        read_db_config_from_conn(columns),
        Ok(DbConfig { mainnet: false, chain_id: 2_147_483_648 })
    );

    let mut stmt = conn.prepare(BLOCK_HEADERS_QUERY).unwrap();
    let rows: Vec<Result<BlockHeaderRow, String>> = stmt
        .query_map([], |r| {
            let hash: Vec<u8> = r.get(0)?;
            Ok(BlockHeaderRow {
                index_block_hash: StacksBlockId([hash[0]; 32]),
                block_height: r.get(1)?,
            })
        })
        .unwrap()
        .map(|r| r.map_err(|e| e.to_string()))
        .collect();
    assert_eq!(
        derive_expected_epoch2_block_rel_paths(BlockHeadersRead::Rows(rows), path_of),
        Ok(vec![path(1), path(2), path(3)])
    );
}

fn expected_of(inserts: &str) -> Result<Vec<String>, BlockHeadersError> {
    let conn = rusqlite::Connection::open_in_memory().unwrap();
    conn.execute_batch("CREATE TABLE block_headers (index_block_hash BLOB, block_height INTEGER);")
        .unwrap();
    conn.execute_batch(inserts).unwrap();
    let mut stmt = conn.prepare(BLOCK_HEADERS_QUERY).unwrap();
    let rows: Vec<Result<BlockHeaderRow, String>> = stmt
        .query_map([], |r| {
            let hash: Vec<u8> = r.get(0)?;
            Ok(BlockHeaderRow {
                index_block_hash: StacksBlockId([hash[0]; 32]),
                block_height: r.get(1)?,
            })
        })
        .unwrap()
        .map(|r| r.map_err(|e| e.to_string()))
        .collect();
    derive_expected_epoch2_block_rel_paths(BlockHeadersRead::Rows(rows), path_of)
}

#[test]
fn insertion_order_and_genesis_do_not_matter() {
    let rising = expected_of("INSERT INTO block_headers VALUES (x'01', 1), (x'02', 2), (x'09', 9);");
    let mixed = expected_of(
        "INSERT INTO block_headers VALUES (x'09', 9), (x'00', 0), (x'02', 2), (x'01', 1);",
    );
    assert_eq!(rising, Ok(vec![path(1), path(2), path(9)]));
    assert_eq!(rising, mixed);
}
