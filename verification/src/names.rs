//! The names of the variables that the configuration of the store is read
//! from, one for each field, in the order in which the fields are declared.

use vstd::prelude::*;

verus! {

pub const GRAPH_CHAIN_HEAD_WATCHER_TIMEOUT: &'static str = "GRAPH_CHAIN_HEAD_WATCHER_TIMEOUT";

pub const GRAPH_QUERY_STATS_REFRESH_INTERVAL: &'static str = "GRAPH_QUERY_STATS_REFRESH_INTERVAL";

pub const GRAPH_SCHEMA_CACHE_TTL: &'static str = "GRAPH_SCHEMA_CACHE_TTL";

pub const GRAPH_EXTRA_QUERY_PERMITS: &'static str = "GRAPH_EXTRA_QUERY_PERMITS";

pub const LARGE_NOTIFICATION_CLEANUP_INTERVAL: &'static str = "LARGE_NOTIFICATION_CLEANUP_INTERVAL";

pub const GRAPH_NOTIFICATION_BROADCAST_TIMEOUT: &'static str =
    "GRAPH_NOTIFICATION_BROADCAST_TIMEOUT";

pub const TYPEA_BATCH_SIZE: &'static str = "TYPEA_BATCH_SIZE";

pub const TYPED_CHILDREN_SET_SIZE: &'static str = "TYPED_CHILDREN_SET_SIZE";

pub const ORDER_BY_BLOCK_RANGE: &'static str = "ORDER_BY_BLOCK_RANGE";

pub const GRAPH_REMOVE_UNUSED_INTERVAL: &'static str = "GRAPH_REMOVE_UNUSED_INTERVAL";

pub const GRAPH_STORE_RECENT_BLOCKS_CACHE_CAPACITY: &'static str =
    "GRAPH_STORE_RECENT_BLOCKS_CACHE_CAPACITY";

pub const GRAPH_STORE_CONNECTION_TIMEOUT: &'static str = "GRAPH_STORE_CONNECTION_TIMEOUT";

pub const GRAPH_STORE_CONNECTION_MIN_IDLE: &'static str = "GRAPH_STORE_CONNECTION_MIN_IDLE";

pub const GRAPH_STORE_CONNECTION_IDLE_TIMEOUT: &'static str = "GRAPH_STORE_CONNECTION_IDLE_TIMEOUT";

pub const GRAPH_STORE_WRITE_QUEUE: &'static str = "GRAPH_STORE_WRITE_QUEUE";

pub const GRAPH_STORE_BATCH_TARGET_DURATION: &'static str = "GRAPH_STORE_BATCH_TARGET_DURATION";

pub const GRAPH_STORE_HISTORY_REBUILD_THRESHOLD: &'static str =
    "GRAPH_STORE_HISTORY_REBUILD_THRESHOLD";

pub const GRAPH_STORE_HISTORY_DELETE_THRESHOLD: &'static str =
    "GRAPH_STORE_HISTORY_DELETE_THRESHOLD";

pub const GRAPH_STORE_HISTORY_SLACK_FACTOR: &'static str = "GRAPH_STORE_HISTORY_SLACK_FACTOR";

pub const GRAPH_STORE_WRITE_BATCH_DURATION: &'static str = "GRAPH_STORE_WRITE_BATCH_DURATION";

pub const GRAPH_STORE_WRITE_BATCH_SIZE: &'static str = "GRAPH_STORE_WRITE_BATCH_SIZE";

pub const GRAPH_STORE_CREATE_GIN_INDEXES: &'static str = "GRAPH_STORE_CREATE_GIN_INDEXES";

pub const GRAPH_STORE_USE_BRIN_FOR_ALL_QUERY_TYPES: &'static str =
    "GRAPH_STORE_USE_BRIN_FOR_ALL_QUERY_TYPES";

pub const GRAPH_STORE_DISABLE_BLOCK_CACHE_FOR_LOOKUP: &'static str =
    "GRAPH_STORE_DISABLE_BLOCK_CACHE_FOR_LOOKUP";

pub const GRAPH_STORE_LAST_ROLLUP_FROM_POI: &'static str = "GRAPH_STORE_LAST_ROLLUP_FROM_POI";

pub const GRAPH_STORE_INSERT_EXTRA_COLS: &'static str = "GRAPH_STORE_INSERT_EXTRA_COLS";

pub const GRAPH_STORE_FDW_FETCH_SIZE: &'static str = "GRAPH_STORE_FDW_FETCH_SIZE";

/// The place of the field that `name` is the variable of, counted from one
/// in the order in which the fields are declared; zero where `name` is the
/// variable of no field.
#[verifier::opaque]
pub open spec fn field_number(name: Seq<char>) -> nat {
    if name == GRAPH_CHAIN_HEAD_WATCHER_TIMEOUT@ {
        1
    } else if name == GRAPH_QUERY_STATS_REFRESH_INTERVAL@ {
        2
    } else if name == GRAPH_SCHEMA_CACHE_TTL@ {
        3
    } else if name == GRAPH_EXTRA_QUERY_PERMITS@ {
        4
    } else if name == LARGE_NOTIFICATION_CLEANUP_INTERVAL@ {
        5
    } else if name == GRAPH_NOTIFICATION_BROADCAST_TIMEOUT@ {
        6
    } else if name == TYPEA_BATCH_SIZE@ {
        7
    } else if name == TYPED_CHILDREN_SET_SIZE@ {
        8
    } else if name == ORDER_BY_BLOCK_RANGE@ {
        9
    } else if name == GRAPH_REMOVE_UNUSED_INTERVAL@ {
        10
    } else if name == GRAPH_STORE_RECENT_BLOCKS_CACHE_CAPACITY@ {
        11
    } else if name == GRAPH_STORE_CONNECTION_TIMEOUT@ {
        12
    } else if name == GRAPH_STORE_CONNECTION_MIN_IDLE@ {
        13
    } else if name == GRAPH_STORE_CONNECTION_IDLE_TIMEOUT@ {
        14
    } else if name == GRAPH_STORE_WRITE_QUEUE@ {
        15
    } else if name == GRAPH_STORE_BATCH_TARGET_DURATION@ {
        16
    } else if name == GRAPH_STORE_HISTORY_REBUILD_THRESHOLD@ {
        17
    } else if name == GRAPH_STORE_HISTORY_DELETE_THRESHOLD@ {
        18
    } else if name == GRAPH_STORE_HISTORY_SLACK_FACTOR@ {
        19
    } else if name == GRAPH_STORE_WRITE_BATCH_DURATION@ {
        20
    } else if name == GRAPH_STORE_WRITE_BATCH_SIZE@ {
        21
    } else if name == GRAPH_STORE_CREATE_GIN_INDEXES@ {
        22
    } else if name == GRAPH_STORE_USE_BRIN_FOR_ALL_QUERY_TYPES@ {
        23
    } else if name == GRAPH_STORE_DISABLE_BLOCK_CACHE_FOR_LOOKUP@ {
        24
    } else if name == GRAPH_STORE_LAST_ROLLUP_FROM_POI@ {
        25
    } else if name == GRAPH_STORE_INSERT_EXTRA_COLS@ {
        26
    } else if name == GRAPH_STORE_FDW_FETCH_SIZE@ {
        27
    } else {
        0
    }
}

/// `name` is the variable of a field.
pub open spec fn is_recognized(name: Seq<char>) -> bool {
    field_number(name) != 0
}

/// No two fields share a variable: each name has the place of its own
/// field.
pub proof fn lemma_field_numbers()
    ensures
        field_number(GRAPH_CHAIN_HEAD_WATCHER_TIMEOUT@) == 1,
        field_number(GRAPH_QUERY_STATS_REFRESH_INTERVAL@) == 2,
        field_number(GRAPH_SCHEMA_CACHE_TTL@) == 3,
        field_number(GRAPH_EXTRA_QUERY_PERMITS@) == 4,
        field_number(LARGE_NOTIFICATION_CLEANUP_INTERVAL@) == 5,
        field_number(GRAPH_NOTIFICATION_BROADCAST_TIMEOUT@) == 6,
        field_number(TYPEA_BATCH_SIZE@) == 7,
        field_number(TYPED_CHILDREN_SET_SIZE@) == 8,
        field_number(ORDER_BY_BLOCK_RANGE@) == 9,
        field_number(GRAPH_REMOVE_UNUSED_INTERVAL@) == 10,
        field_number(GRAPH_STORE_RECENT_BLOCKS_CACHE_CAPACITY@) == 11,
        field_number(GRAPH_STORE_CONNECTION_TIMEOUT@) == 12,
        field_number(GRAPH_STORE_CONNECTION_MIN_IDLE@) == 13,
        field_number(GRAPH_STORE_CONNECTION_IDLE_TIMEOUT@) == 14,
        field_number(GRAPH_STORE_WRITE_QUEUE@) == 15,
        field_number(GRAPH_STORE_BATCH_TARGET_DURATION@) == 16,
        field_number(GRAPH_STORE_HISTORY_REBUILD_THRESHOLD@) == 17,
        field_number(GRAPH_STORE_HISTORY_DELETE_THRESHOLD@) == 18,
        field_number(GRAPH_STORE_HISTORY_SLACK_FACTOR@) == 19,
        field_number(GRAPH_STORE_WRITE_BATCH_DURATION@) == 20,
        field_number(GRAPH_STORE_WRITE_BATCH_SIZE@) == 21,
        field_number(GRAPH_STORE_CREATE_GIN_INDEXES@) == 22,
        field_number(GRAPH_STORE_USE_BRIN_FOR_ALL_QUERY_TYPES@) == 23,
        field_number(GRAPH_STORE_DISABLE_BLOCK_CACHE_FOR_LOOKUP@) == 24,
        field_number(GRAPH_STORE_LAST_ROLLUP_FROM_POI@) == 25,
        field_number(GRAPH_STORE_INSERT_EXTRA_COLS@) == 26,
        field_number(GRAPH_STORE_FDW_FETCH_SIZE@) == 27,
{
    reveal(field_number);
    reveal_strlit("GRAPH_CHAIN_HEAD_WATCHER_TIMEOUT");
    reveal_strlit("GRAPH_QUERY_STATS_REFRESH_INTERVAL");
    reveal_strlit("GRAPH_SCHEMA_CACHE_TTL");
    reveal_strlit("GRAPH_EXTRA_QUERY_PERMITS");
    reveal_strlit("LARGE_NOTIFICATION_CLEANUP_INTERVAL");
    reveal_strlit("GRAPH_NOTIFICATION_BROADCAST_TIMEOUT");
    reveal_strlit("TYPEA_BATCH_SIZE");
    reveal_strlit("TYPED_CHILDREN_SET_SIZE");
    reveal_strlit("ORDER_BY_BLOCK_RANGE");
    reveal_strlit("GRAPH_REMOVE_UNUSED_INTERVAL");
    reveal_strlit("GRAPH_STORE_RECENT_BLOCKS_CACHE_CAPACITY");
    reveal_strlit("GRAPH_STORE_CONNECTION_TIMEOUT");
    reveal_strlit("GRAPH_STORE_CONNECTION_MIN_IDLE");
    reveal_strlit("GRAPH_STORE_CONNECTION_IDLE_TIMEOUT");
    reveal_strlit("GRAPH_STORE_WRITE_QUEUE");
    reveal_strlit("GRAPH_STORE_BATCH_TARGET_DURATION");
    reveal_strlit("GRAPH_STORE_HISTORY_REBUILD_THRESHOLD");
    reveal_strlit("GRAPH_STORE_HISTORY_DELETE_THRESHOLD");
    reveal_strlit("GRAPH_STORE_HISTORY_SLACK_FACTOR");
    reveal_strlit("GRAPH_STORE_WRITE_BATCH_DURATION");
    reveal_strlit("GRAPH_STORE_WRITE_BATCH_SIZE");
    reveal_strlit("GRAPH_STORE_CREATE_GIN_INDEXES");
    reveal_strlit("GRAPH_STORE_USE_BRIN_FOR_ALL_QUERY_TYPES");
    reveal_strlit("GRAPH_STORE_DISABLE_BLOCK_CACHE_FOR_LOOKUP");
    reveal_strlit("GRAPH_STORE_LAST_ROLLUP_FROM_POI");
    reveal_strlit("GRAPH_STORE_INSERT_EXTRA_COLS");
    reveal_strlit("GRAPH_STORE_FDW_FETCH_SIZE");
    // Names differ in length, or in the character that is compared below.
    assert(GRAPH_CHAIN_HEAD_WATCHER_TIMEOUT@.len() == 32);
    assert(GRAPH_QUERY_STATS_REFRESH_INTERVAL@.len() == 34);
    assert(GRAPH_SCHEMA_CACHE_TTL@.len() == 22);
    assert(GRAPH_EXTRA_QUERY_PERMITS@.len() == 25);
    assert(LARGE_NOTIFICATION_CLEANUP_INTERVAL@.len() == 35);
    assert(GRAPH_NOTIFICATION_BROADCAST_TIMEOUT@.len() == 36);
    assert(TYPEA_BATCH_SIZE@.len() == 16);
    assert(TYPED_CHILDREN_SET_SIZE@.len() == 23);
    assert(ORDER_BY_BLOCK_RANGE@.len() == 20);
    assert(GRAPH_REMOVE_UNUSED_INTERVAL@.len() == 28);
    assert(GRAPH_STORE_RECENT_BLOCKS_CACHE_CAPACITY@.len() == 40);
    assert(GRAPH_STORE_CONNECTION_TIMEOUT@.len() == 30);
    assert(GRAPH_STORE_CONNECTION_MIN_IDLE@.len() == 31);
    assert(GRAPH_STORE_CONNECTION_IDLE_TIMEOUT@.len() == 35);
    assert(GRAPH_STORE_WRITE_QUEUE@.len() == 23);
    assert(GRAPH_STORE_BATCH_TARGET_DURATION@.len() == 33);
    assert(GRAPH_STORE_HISTORY_REBUILD_THRESHOLD@.len() == 37);
    assert(GRAPH_STORE_HISTORY_DELETE_THRESHOLD@.len() == 36);
    assert(GRAPH_STORE_HISTORY_SLACK_FACTOR@.len() == 32);
    assert(GRAPH_STORE_WRITE_BATCH_DURATION@.len() == 32);
    assert(GRAPH_STORE_WRITE_BATCH_SIZE@.len() == 28);
    assert(GRAPH_STORE_CREATE_GIN_INDEXES@.len() == 30);
    assert(GRAPH_STORE_USE_BRIN_FOR_ALL_QUERY_TYPES@.len() == 40);
    assert(GRAPH_STORE_DISABLE_BLOCK_CACHE_FOR_LOOKUP@.len() == 42);
    assert(GRAPH_STORE_LAST_ROLLUP_FROM_POI@.len() == 32);
    assert(GRAPH_STORE_INSERT_EXTRA_COLS@.len() == 29);
    assert(GRAPH_STORE_FDW_FETCH_SIZE@.len() == 26);
    assert(GRAPH_CHAIN_HEAD_WATCHER_TIMEOUT@[6] != GRAPH_STORE_HISTORY_SLACK_FACTOR@[6]);
    assert(GRAPH_CHAIN_HEAD_WATCHER_TIMEOUT@[6] != GRAPH_STORE_WRITE_BATCH_DURATION@[6]);
    assert(GRAPH_CHAIN_HEAD_WATCHER_TIMEOUT@[6] != GRAPH_STORE_LAST_ROLLUP_FROM_POI@[6]);
    assert(LARGE_NOTIFICATION_CLEANUP_INTERVAL@[0] != GRAPH_STORE_CONNECTION_IDLE_TIMEOUT@[0]);
    assert(GRAPH_NOTIFICATION_BROADCAST_TIMEOUT@[6] != GRAPH_STORE_HISTORY_DELETE_THRESHOLD@[6]);
    assert(TYPED_CHILDREN_SET_SIZE@[0] != GRAPH_STORE_WRITE_QUEUE@[0]);
    assert(GRAPH_REMOVE_UNUSED_INTERVAL@[6] != GRAPH_STORE_WRITE_BATCH_SIZE@[6]);
    assert(GRAPH_STORE_RECENT_BLOCKS_CACHE_CAPACITY@[12]
        != GRAPH_STORE_USE_BRIN_FOR_ALL_QUERY_TYPES@[12]);
    assert(GRAPH_STORE_CONNECTION_TIMEOUT@[13] != GRAPH_STORE_CREATE_GIN_INDEXES@[13]);
    assert(GRAPH_STORE_HISTORY_SLACK_FACTOR@[12] != GRAPH_STORE_WRITE_BATCH_DURATION@[12]);
    assert(GRAPH_STORE_HISTORY_SLACK_FACTOR@[12] != GRAPH_STORE_LAST_ROLLUP_FROM_POI@[12]);
    assert(GRAPH_STORE_WRITE_BATCH_DURATION@[12] != GRAPH_STORE_LAST_ROLLUP_FROM_POI@[12]);
}

/// The variable of each field is recognized.
pub proof fn lemma_names_are_recognized()
    ensures
        is_recognized(GRAPH_CHAIN_HEAD_WATCHER_TIMEOUT@),
        is_recognized(GRAPH_QUERY_STATS_REFRESH_INTERVAL@),
        is_recognized(GRAPH_SCHEMA_CACHE_TTL@),
        is_recognized(GRAPH_EXTRA_QUERY_PERMITS@),
        is_recognized(LARGE_NOTIFICATION_CLEANUP_INTERVAL@),
        is_recognized(GRAPH_NOTIFICATION_BROADCAST_TIMEOUT@),
        is_recognized(TYPEA_BATCH_SIZE@),
        is_recognized(TYPED_CHILDREN_SET_SIZE@),
        is_recognized(ORDER_BY_BLOCK_RANGE@),
        is_recognized(GRAPH_REMOVE_UNUSED_INTERVAL@),
        is_recognized(GRAPH_STORE_RECENT_BLOCKS_CACHE_CAPACITY@),
        is_recognized(GRAPH_STORE_CONNECTION_TIMEOUT@),
        is_recognized(GRAPH_STORE_CONNECTION_MIN_IDLE@),
        is_recognized(GRAPH_STORE_CONNECTION_IDLE_TIMEOUT@),
        is_recognized(GRAPH_STORE_WRITE_QUEUE@),
        is_recognized(GRAPH_STORE_BATCH_TARGET_DURATION@),
        is_recognized(GRAPH_STORE_HISTORY_REBUILD_THRESHOLD@),
        is_recognized(GRAPH_STORE_HISTORY_DELETE_THRESHOLD@),
        is_recognized(GRAPH_STORE_HISTORY_SLACK_FACTOR@),
        is_recognized(GRAPH_STORE_WRITE_BATCH_DURATION@),
        is_recognized(GRAPH_STORE_WRITE_BATCH_SIZE@),
        is_recognized(GRAPH_STORE_CREATE_GIN_INDEXES@),
        is_recognized(GRAPH_STORE_USE_BRIN_FOR_ALL_QUERY_TYPES@),
        is_recognized(GRAPH_STORE_DISABLE_BLOCK_CACHE_FOR_LOOKUP@),
        is_recognized(GRAPH_STORE_LAST_ROLLUP_FROM_POI@),
        is_recognized(GRAPH_STORE_INSERT_EXTRA_COLS@),
        is_recognized(GRAPH_STORE_FDW_FETCH_SIZE@),
{
    lemma_field_numbers();
}

} // verus!
