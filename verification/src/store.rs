//! The configuration of the store: the fields as they are read, one for
//! each variable, and the configuration that is assembled from them, with
//! every span of time and every size in its final unit.

use crate::error::{ConfigError, ConfigErrorView};
use crate::field::{
    flag_field, optional_u32_field, optional_u64_field, read_bool, read_history_slack,
    read_optional_u32, read_optional_u64, read_u64, read_usize, read_zero_to_one,
    slack_factor_field, u64_field, unit_ratio_field, usize_field, Resolved,
};
use crate::names::{
    GRAPH_CHAIN_HEAD_WATCHER_TIMEOUT, GRAPH_EXTRA_QUERY_PERMITS,
    GRAPH_NOTIFICATION_BROADCAST_TIMEOUT, GRAPH_QUERY_STATS_REFRESH_INTERVAL,
    GRAPH_REMOVE_UNUSED_INTERVAL, GRAPH_SCHEMA_CACHE_TTL, GRAPH_STORE_BATCH_TARGET_DURATION,
    GRAPH_STORE_CONNECTION_IDLE_TIMEOUT, GRAPH_STORE_CONNECTION_MIN_IDLE,
    GRAPH_STORE_CONNECTION_TIMEOUT, GRAPH_STORE_CREATE_GIN_INDEXES,
    GRAPH_STORE_DISABLE_BLOCK_CACHE_FOR_LOOKUP, GRAPH_STORE_FDW_FETCH_SIZE,
    GRAPH_STORE_HISTORY_DELETE_THRESHOLD, GRAPH_STORE_HISTORY_REBUILD_THRESHOLD,
    GRAPH_STORE_HISTORY_SLACK_FACTOR, GRAPH_STORE_INSERT_EXTRA_COLS,
    GRAPH_STORE_LAST_ROLLUP_FROM_POI, GRAPH_STORE_RECENT_BLOCKS_CACHE_CAPACITY,
    GRAPH_STORE_USE_BRIN_FOR_ALL_QUERY_TYPES, GRAPH_STORE_WRITE_BATCH_DURATION,
    GRAPH_STORE_WRITE_BATCH_SIZE, GRAPH_STORE_WRITE_QUEUE, LARGE_NOTIFICATION_CLEANUP_INTERVAL,
    ORDER_BY_BLOCK_RANGE, TYPEA_BATCH_SIZE, TYPED_CHILDREN_SET_SIZE,
};
use crate::scalar::{HistorySlack, ZeroToOne};
use crate::snapshot::{EnvSnapshot, Variables};
use crate::time::{delta_millis, duration_nanos, MAX_DELTA_MINUTES};
use std::time::Duration;
use vstd::prelude::*;

verus! {

/// Kilobytes are thousands of bytes.
pub const BYTES_PER_KILOBYTE: usize = 1000;

/// The largest size in kilobytes that can be held in bytes.
pub const MAX_KILOBYTES: usize = usize::MAX / BYTES_PER_KILOBYTE;

/// The longest refresh interval, in seconds, that can be doubled.
pub const MAX_DOUBLED_SECS: u64 = u64::MAX / 2;

/// The fields of the store as they are read, each in the unit in which its
/// variable is written. A value of this type is made by resolving a set of
/// variables, and in no other way.
#[derive(Debug)]
pub struct InnerStore {
    chain_head_watcher_timeout_in_secs: u64,
    query_stats_refresh_interval_in_secs: u64,
    schema_cache_ttl: Option<u64>,
    extra_query_permits: usize,
    large_notification_cleanup_interval_in_secs: u64,
    notification_broadcast_timeout_in_secs: u64,
    typea_batch_size: usize,
    typed_children_set_size: usize,
    order_by_block_range: bool,
    remove_unused_interval_in_minutes: u64,
    recent_blocks_cache_capacity: usize,
    connection_timeout_in_millis: u64,
    connection_min_idle: Option<u32>,
    connection_idle_timeout_in_secs: u64,
    write_queue_size: usize,
    batch_target_duration_in_secs: u64,
    rebuild_threshold: ZeroToOne,
    delete_threshold: ZeroToOne,
    history_slack_factor: HistorySlack,
    write_batch_duration_in_secs: u64,
    write_batch_size: usize,
    create_gin_indexes: bool,
    use_brin_for_all_query_types: bool,
    disable_block_cache_for_lookup: bool,
    last_rollup_from_poi: bool,
    insert_extra_cols: usize,
    fdw_fetch_size: usize,
}

/// The fields of an `InnerStore` as plain values; a ratio is the literal it
/// was written as.
pub struct InnerStoreView {
    pub chain_head_watcher_timeout_in_secs: u64,
    pub query_stats_refresh_interval_in_secs: u64,
    pub schema_cache_ttl: Option<u64>,
    pub extra_query_permits: usize,
    pub large_notification_cleanup_interval_in_secs: u64,
    pub notification_broadcast_timeout_in_secs: u64,
    pub typea_batch_size: usize,
    pub typed_children_set_size: usize,
    pub order_by_block_range: bool,
    pub remove_unused_interval_in_minutes: u64,
    pub recent_blocks_cache_capacity: usize,
    pub connection_timeout_in_millis: u64,
    pub connection_min_idle: Option<u32>,
    pub connection_idle_timeout_in_secs: u64,
    pub write_queue_size: usize,
    pub batch_target_duration_in_secs: u64,
    pub rebuild_threshold: Seq<char>,
    pub delete_threshold: Seq<char>,
    pub history_slack_factor: Seq<char>,
    pub write_batch_duration_in_secs: u64,
    pub write_batch_size: usize,
    pub create_gin_indexes: bool,
    pub use_brin_for_all_query_types: bool,
    pub disable_block_cache_for_lookup: bool,
    pub last_rollup_from_poi: bool,
    pub insert_extra_cols: usize,
    pub fdw_fetch_size: usize,
}

/// The time for which the schema cache keeps an entry, in seconds: what was
/// set for it, else twice the interval at which query statistics are
/// refreshed.
pub open spec fn schema_cache_ttl_in_secs(x: InnerStoreView) -> int {
    match x.schema_cache_ttl {
        Some(ttl) => ttl as int,
        None => 2 * x.query_stats_refresh_interval_in_secs,
    }
}

/// The fields can be brought to their final units: each result fits its
/// type.
pub open spec fn derivable(x: InnerStoreView) -> bool {
    &&& schema_cache_ttl_in_secs(x) <= u64::MAX
    &&& x.remove_unused_interval_in_minutes <= MAX_DELTA_MINUTES
    &&& x.write_batch_size * BYTES_PER_KILOBYTE <= usize::MAX
}

impl View for InnerStore {
    type V = InnerStoreView;

    closed spec fn view(&self) -> InnerStoreView {
        InnerStoreView {
            chain_head_watcher_timeout_in_secs: self.chain_head_watcher_timeout_in_secs,
            query_stats_refresh_interval_in_secs: self.query_stats_refresh_interval_in_secs,
            schema_cache_ttl: self.schema_cache_ttl,
            extra_query_permits: self.extra_query_permits,
            large_notification_cleanup_interval_in_secs:
                self.large_notification_cleanup_interval_in_secs,
            notification_broadcast_timeout_in_secs: self.notification_broadcast_timeout_in_secs,
            typea_batch_size: self.typea_batch_size,
            typed_children_set_size: self.typed_children_set_size,
            order_by_block_range: self.order_by_block_range,
            remove_unused_interval_in_minutes: self.remove_unused_interval_in_minutes,
            recent_blocks_cache_capacity: self.recent_blocks_cache_capacity,
            connection_timeout_in_millis: self.connection_timeout_in_millis,
            connection_min_idle: self.connection_min_idle,
            connection_idle_timeout_in_secs: self.connection_idle_timeout_in_secs,
            write_queue_size: self.write_queue_size,
            batch_target_duration_in_secs: self.batch_target_duration_in_secs,
            rebuild_threshold: self.rebuild_threshold@,
            delete_threshold: self.delete_threshold@,
            history_slack_factor: self.history_slack_factor@,
            write_batch_duration_in_secs: self.write_batch_duration_in_secs,
            write_batch_size: self.write_batch_size,
            create_gin_indexes: self.create_gin_indexes,
            use_brin_for_all_query_types: self.use_brin_for_all_query_types,
            disable_block_cache_for_lookup: self.disable_block_cache_for_lookup,
            last_rollup_from_poi: self.last_rollup_from_poi,
            insert_extra_cols: self.insert_extra_cols,
            fdw_fetch_size: self.fdw_fetch_size,
        }
    }
}

impl Clone for InnerStore {
    fn clone(&self) -> (r: Self)
        ensures
            r@ == self@,
    {
        proof {
            use_type_invariant(self);
        }
        InnerStore {
            chain_head_watcher_timeout_in_secs: self.chain_head_watcher_timeout_in_secs,
            query_stats_refresh_interval_in_secs: self.query_stats_refresh_interval_in_secs,
            schema_cache_ttl: self.schema_cache_ttl,
            extra_query_permits: self.extra_query_permits,
            large_notification_cleanup_interval_in_secs:
                self.large_notification_cleanup_interval_in_secs,
            notification_broadcast_timeout_in_secs: self.notification_broadcast_timeout_in_secs,
            typea_batch_size: self.typea_batch_size,
            typed_children_set_size: self.typed_children_set_size,
            order_by_block_range: self.order_by_block_range,
            remove_unused_interval_in_minutes: self.remove_unused_interval_in_minutes,
            recent_blocks_cache_capacity: self.recent_blocks_cache_capacity,
            connection_timeout_in_millis: self.connection_timeout_in_millis,
            connection_min_idle: self.connection_min_idle,
            connection_idle_timeout_in_secs: self.connection_idle_timeout_in_secs,
            write_queue_size: self.write_queue_size,
            batch_target_duration_in_secs: self.batch_target_duration_in_secs,
            rebuild_threshold: self.rebuild_threshold.clone(),
            delete_threshold: self.delete_threshold.clone(),
            history_slack_factor: self.history_slack_factor.clone(),
            write_batch_duration_in_secs: self.write_batch_duration_in_secs,
            write_batch_size: self.write_batch_size,
            create_gin_indexes: self.create_gin_indexes,
            use_brin_for_all_query_types: self.use_brin_for_all_query_types,
            disable_block_cache_for_lookup: self.disable_block_cache_for_lookup,
            last_rollup_from_poi: self.last_rollup_from_poi,
            insert_extra_cols: self.insert_extra_cols,
            fdw_fetch_size: self.fdw_fetch_size,
        }
    }
}

impl InnerStore {
    #[verifier::type_invariant]
    spec fn well_formed(self) -> bool {
        derivable(self@)
    }

    /// The field `chain_head_watcher_timeout_in_secs`, read from
    /// `GRAPH_CHAIN_HEAD_WATCHER_TIMEOUT`.
    pub open spec fn chain_head_watcher_timeout_in_secs(env: Variables) -> Resolved<u64> {
        u64_field(env, GRAPH_CHAIN_HEAD_WATCHER_TIMEOUT@, Some("30"@), u64::MAX)
    }

    /// The field `query_stats_refresh_interval_in_secs`, read from
    /// `GRAPH_QUERY_STATS_REFRESH_INTERVAL`.
    pub open spec fn query_stats_refresh_interval_in_secs(env: Variables) -> Resolved<u64> {
        u64_field(env, GRAPH_QUERY_STATS_REFRESH_INTERVAL@, Some("300"@), u64::MAX)
    }

    /// The field `schema_cache_ttl`, read from `GRAPH_SCHEMA_CACHE_TTL`.
    pub open spec fn schema_cache_ttl(env: Variables) -> Resolved<Option<u64>> {
        optional_u64_field(env, GRAPH_SCHEMA_CACHE_TTL@)
    }

    /// The field `extra_query_permits`, read from
    /// `GRAPH_EXTRA_QUERY_PERMITS`.
    pub open spec fn extra_query_permits(env: Variables) -> Resolved<usize> {
        usize_field(env, GRAPH_EXTRA_QUERY_PERMITS@, Some("0"@), usize::MAX)
    }

    /// The field `large_notification_cleanup_interval_in_secs`, read from
    /// `LARGE_NOTIFICATION_CLEANUP_INTERVAL`.
    pub open spec fn large_notification_cleanup_interval_in_secs(env: Variables) -> Resolved<u64> {
        u64_field(env, LARGE_NOTIFICATION_CLEANUP_INTERVAL@, Some("300"@), u64::MAX)
    }

    /// The field `notification_broadcast_timeout_in_secs`, read from
    /// `GRAPH_NOTIFICATION_BROADCAST_TIMEOUT`.
    pub open spec fn notification_broadcast_timeout_in_secs(env: Variables) -> Resolved<u64> {
        u64_field(env, GRAPH_NOTIFICATION_BROADCAST_TIMEOUT@, Some("60"@), u64::MAX)
    }

    /// The field `typea_batch_size`, read from `TYPEA_BATCH_SIZE`.
    pub open spec fn typea_batch_size(env: Variables) -> Resolved<usize> {
        usize_field(env, TYPEA_BATCH_SIZE@, Some("150"@), usize::MAX)
    }

    /// The field `typed_children_set_size`, read from
    /// `TYPED_CHILDREN_SET_SIZE`.
    pub open spec fn typed_children_set_size(env: Variables) -> Resolved<usize> {
        usize_field(env, TYPED_CHILDREN_SET_SIZE@, Some("150"@), usize::MAX)
    }

    /// The field `order_by_block_range`, read from `ORDER_BY_BLOCK_RANGE`.
    pub open spec fn order_by_block_range(env: Variables) -> Resolved<bool> {
        flag_field(env, ORDER_BY_BLOCK_RANGE@, Some("true"@))
    }

    /// The field `remove_unused_interval_in_minutes`, read from
    /// `GRAPH_REMOVE_UNUSED_INTERVAL`.
    pub open spec fn remove_unused_interval_in_minutes(env: Variables) -> Resolved<u64> {
        u64_field(env, GRAPH_REMOVE_UNUSED_INTERVAL@, Some("360"@), MAX_DELTA_MINUTES)
    }

    /// The field `recent_blocks_cache_capacity`, read from
    /// `GRAPH_STORE_RECENT_BLOCKS_CACHE_CAPACITY`.
    pub open spec fn recent_blocks_cache_capacity(env: Variables) -> Resolved<usize> {
        usize_field(env, GRAPH_STORE_RECENT_BLOCKS_CACHE_CAPACITY@, Some("10"@), usize::MAX)
    }

    /// The field `connection_timeout_in_millis`, read from
    /// `GRAPH_STORE_CONNECTION_TIMEOUT`.
    pub open spec fn connection_timeout_in_millis(env: Variables) -> Resolved<u64> {
        u64_field(env, GRAPH_STORE_CONNECTION_TIMEOUT@, Some("5000"@), u64::MAX)
    }

    /// The field `connection_min_idle`, read from
    /// `GRAPH_STORE_CONNECTION_MIN_IDLE`.
    pub open spec fn connection_min_idle(env: Variables) -> Resolved<Option<u32>> {
        optional_u32_field(env, GRAPH_STORE_CONNECTION_MIN_IDLE@)
    }

    /// The field `connection_idle_timeout_in_secs`, read from
    /// `GRAPH_STORE_CONNECTION_IDLE_TIMEOUT`.
    pub open spec fn connection_idle_timeout_in_secs(env: Variables) -> Resolved<u64> {
        u64_field(env, GRAPH_STORE_CONNECTION_IDLE_TIMEOUT@, Some("600"@), u64::MAX)
    }

    /// The field `write_queue_size`, read from `GRAPH_STORE_WRITE_QUEUE`.
    pub open spec fn write_queue_size(env: Variables) -> Resolved<usize> {
        usize_field(env, GRAPH_STORE_WRITE_QUEUE@, Some("5"@), usize::MAX)
    }

    /// The field `batch_target_duration_in_secs`, read from
    /// `GRAPH_STORE_BATCH_TARGET_DURATION`.
    pub open spec fn batch_target_duration_in_secs(env: Variables) -> Resolved<u64> {
        u64_field(env, GRAPH_STORE_BATCH_TARGET_DURATION@, Some("180"@), u64::MAX)
    }

    /// The field `rebuild_threshold`, read from
    /// `GRAPH_STORE_HISTORY_REBUILD_THRESHOLD`.
    pub open spec fn rebuild_threshold(env: Variables) -> Resolved<Seq<char>> {
        unit_ratio_field(env, GRAPH_STORE_HISTORY_REBUILD_THRESHOLD@, Some("0.5"@))
    }

    /// The field `delete_threshold`, read from
    /// `GRAPH_STORE_HISTORY_DELETE_THRESHOLD`.
    pub open spec fn delete_threshold(env: Variables) -> Resolved<Seq<char>> {
        unit_ratio_field(env, GRAPH_STORE_HISTORY_DELETE_THRESHOLD@, Some("0.05"@))
    }

    /// The field `history_slack_factor`, read from
    /// `GRAPH_STORE_HISTORY_SLACK_FACTOR`.
    pub open spec fn history_slack_factor(env: Variables) -> Resolved<Seq<char>> {
        slack_factor_field(env, GRAPH_STORE_HISTORY_SLACK_FACTOR@, Some("1.2"@))
    }

    /// The field `write_batch_duration_in_secs`, read from
    /// `GRAPH_STORE_WRITE_BATCH_DURATION`.
    pub open spec fn write_batch_duration_in_secs(env: Variables) -> Resolved<u64> {
        u64_field(env, GRAPH_STORE_WRITE_BATCH_DURATION@, Some("300"@), u64::MAX)
    }

    /// The field `write_batch_size`, read from
    /// `GRAPH_STORE_WRITE_BATCH_SIZE`.
    pub open spec fn write_batch_size(env: Variables) -> Resolved<usize> {
        usize_field(env, GRAPH_STORE_WRITE_BATCH_SIZE@, Some("10000"@), MAX_KILOBYTES)
    }

    /// The field `create_gin_indexes`, read from
    /// `GRAPH_STORE_CREATE_GIN_INDEXES`.
    pub open spec fn create_gin_indexes(env: Variables) -> Resolved<bool> {
        flag_field(env, GRAPH_STORE_CREATE_GIN_INDEXES@, Some("false"@))
    }

    /// The field `use_brin_for_all_query_types`, read from
    /// `GRAPH_STORE_USE_BRIN_FOR_ALL_QUERY_TYPES`.
    pub open spec fn use_brin_for_all_query_types(env: Variables) -> Resolved<bool> {
        flag_field(env, GRAPH_STORE_USE_BRIN_FOR_ALL_QUERY_TYPES@, Some("false"@))
    }

    /// The field `disable_block_cache_for_lookup`, read from
    /// `GRAPH_STORE_DISABLE_BLOCK_CACHE_FOR_LOOKUP`.
    pub open spec fn disable_block_cache_for_lookup(env: Variables) -> Resolved<bool> {
        flag_field(env, GRAPH_STORE_DISABLE_BLOCK_CACHE_FOR_LOOKUP@, Some("false"@))
    }

    /// The field `last_rollup_from_poi`, read from
    /// `GRAPH_STORE_LAST_ROLLUP_FROM_POI`.
    pub open spec fn last_rollup_from_poi(env: Variables) -> Resolved<bool> {
        flag_field(env, GRAPH_STORE_LAST_ROLLUP_FROM_POI@, Some("false"@))
    }

    /// The field `insert_extra_cols`, read from
    /// `GRAPH_STORE_INSERT_EXTRA_COLS`.
    pub open spec fn insert_extra_cols(env: Variables) -> Resolved<usize> {
        usize_field(env, GRAPH_STORE_INSERT_EXTRA_COLS@, Some("0"@), usize::MAX)
    }

    /// The field `fdw_fetch_size`, read from `GRAPH_STORE_FDW_FETCH_SIZE`.
    pub open spec fn fdw_fetch_size(env: Variables) -> Resolved<usize> {
        usize_field(env, GRAPH_STORE_FDW_FETCH_SIZE@, Some("10000"@), usize::MAX)
    }

    /// The rejection of the first field, in the order in which the fields
    /// are declared, that does not resolve; `None` where each of them
    /// resolves.
    pub open spec fn first_rejection(env: Variables) -> Option<ConfigErrorView> {
        if Self::chain_head_watcher_timeout_in_secs(env) is Err {
            Some(Self::chain_head_watcher_timeout_in_secs(env)->Err_0)
        } else if Self::query_stats_refresh_interval_in_secs(env) is Err {
            Some(Self::query_stats_refresh_interval_in_secs(env)->Err_0)
        } else if Self::schema_cache_ttl(env) is Err {
            Some(Self::schema_cache_ttl(env)->Err_0)
        } else if Self::extra_query_permits(env) is Err {
            Some(Self::extra_query_permits(env)->Err_0)
        } else if Self::large_notification_cleanup_interval_in_secs(env) is Err {
            Some(Self::large_notification_cleanup_interval_in_secs(env)->Err_0)
        } else if Self::notification_broadcast_timeout_in_secs(env) is Err {
            Some(Self::notification_broadcast_timeout_in_secs(env)->Err_0)
        } else if Self::typea_batch_size(env) is Err {
            Some(Self::typea_batch_size(env)->Err_0)
        } else if Self::typed_children_set_size(env) is Err {
            Some(Self::typed_children_set_size(env)->Err_0)
        } else if Self::order_by_block_range(env) is Err {
            Some(Self::order_by_block_range(env)->Err_0)
        } else if Self::remove_unused_interval_in_minutes(env) is Err {
            Some(Self::remove_unused_interval_in_minutes(env)->Err_0)
        } else if Self::recent_blocks_cache_capacity(env) is Err {
            Some(Self::recent_blocks_cache_capacity(env)->Err_0)
        } else if Self::connection_timeout_in_millis(env) is Err {
            Some(Self::connection_timeout_in_millis(env)->Err_0)
        } else if Self::connection_min_idle(env) is Err {
            Some(Self::connection_min_idle(env)->Err_0)
        } else if Self::connection_idle_timeout_in_secs(env) is Err {
            Some(Self::connection_idle_timeout_in_secs(env)->Err_0)
        } else if Self::write_queue_size(env) is Err {
            Some(Self::write_queue_size(env)->Err_0)
        } else if Self::batch_target_duration_in_secs(env) is Err {
            Some(Self::batch_target_duration_in_secs(env)->Err_0)
        } else if Self::rebuild_threshold(env) is Err {
            Some(Self::rebuild_threshold(env)->Err_0)
        } else if Self::delete_threshold(env) is Err {
            Some(Self::delete_threshold(env)->Err_0)
        } else if Self::history_slack_factor(env) is Err {
            Some(Self::history_slack_factor(env)->Err_0)
        } else if Self::write_batch_duration_in_secs(env) is Err {
            Some(Self::write_batch_duration_in_secs(env)->Err_0)
        } else if Self::write_batch_size(env) is Err {
            Some(Self::write_batch_size(env)->Err_0)
        } else if Self::create_gin_indexes(env) is Err {
            Some(Self::create_gin_indexes(env)->Err_0)
        } else if Self::use_brin_for_all_query_types(env) is Err {
            Some(Self::use_brin_for_all_query_types(env)->Err_0)
        } else if Self::disable_block_cache_for_lookup(env) is Err {
            Some(Self::disable_block_cache_for_lookup(env)->Err_0)
        } else if Self::last_rollup_from_poi(env) is Err {
            Some(Self::last_rollup_from_poi(env)->Err_0)
        } else if Self::insert_extra_cols(env) is Err {
            Some(Self::insert_extra_cols(env)->Err_0)
        } else if Self::fdw_fetch_size(env) is Err {
            Some(Self::fdw_fetch_size(env)->Err_0)
        } else {
            None
        }
    }

    /// The values of the fields, where each of them resolves.
    pub open spec fn fields(env: Variables) -> InnerStoreView {
        InnerStoreView {
            chain_head_watcher_timeout_in_secs: Self::chain_head_watcher_timeout_in_secs(env)->Ok_0,
            query_stats_refresh_interval_in_secs:
                Self::query_stats_refresh_interval_in_secs(env)->Ok_0,
            schema_cache_ttl: Self::schema_cache_ttl(env)->Ok_0,
            extra_query_permits: Self::extra_query_permits(env)->Ok_0,
            large_notification_cleanup_interval_in_secs:
                Self::large_notification_cleanup_interval_in_secs(env)->Ok_0,
            notification_broadcast_timeout_in_secs:
                Self::notification_broadcast_timeout_in_secs(env)->Ok_0,
            typea_batch_size: Self::typea_batch_size(env)->Ok_0,
            typed_children_set_size: Self::typed_children_set_size(env)->Ok_0,
            order_by_block_range: Self::order_by_block_range(env)->Ok_0,
            remove_unused_interval_in_minutes: Self::remove_unused_interval_in_minutes(env)->Ok_0,
            recent_blocks_cache_capacity: Self::recent_blocks_cache_capacity(env)->Ok_0,
            connection_timeout_in_millis: Self::connection_timeout_in_millis(env)->Ok_0,
            connection_min_idle: Self::connection_min_idle(env)->Ok_0,
            connection_idle_timeout_in_secs: Self::connection_idle_timeout_in_secs(env)->Ok_0,
            write_queue_size: Self::write_queue_size(env)->Ok_0,
            batch_target_duration_in_secs: Self::batch_target_duration_in_secs(env)->Ok_0,
            rebuild_threshold: Self::rebuild_threshold(env)->Ok_0,
            delete_threshold: Self::delete_threshold(env)->Ok_0,
            history_slack_factor: Self::history_slack_factor(env)->Ok_0,
            write_batch_duration_in_secs: Self::write_batch_duration_in_secs(env)->Ok_0,
            write_batch_size: Self::write_batch_size(env)->Ok_0,
            create_gin_indexes: Self::create_gin_indexes(env)->Ok_0,
            use_brin_for_all_query_types: Self::use_brin_for_all_query_types(env)->Ok_0,
            disable_block_cache_for_lookup: Self::disable_block_cache_for_lookup(env)->Ok_0,
            last_rollup_from_poi: Self::last_rollup_from_poi(env)->Ok_0,
            insert_extra_cols: Self::insert_extra_cols(env)->Ok_0,
            fdw_fetch_size: Self::fdw_fetch_size(env)->Ok_0,
        }
    }

    /// The refresh interval as it must be where the time for which the
    /// schema cache keeps an entry is not set: one that can be doubled.
    pub open spec fn doubled_refresh_interval(env: Variables) -> Resolved<u64> {
        u64_field(env, GRAPH_QUERY_STATS_REFRESH_INTERVAL@, Some("300"@), MAX_DOUBLED_SECS)
    }

    /// What the variables `env` resolve to: the fields, or a rejection.
    ///
    /// The fields are read one by one, in the order in which they are
    /// declared, and the first that does not resolve gives the rejection.
    /// Once each of them has resolved, what is derived from them must fit:
    /// where the time for which the schema cache keeps an entry is not set,
    /// a refresh interval that cannot be doubled is out of range.
    pub open spec fn resolve(env: Variables) -> Resolved<InnerStoreView> {
        match Self::first_rejection(env) {
            Some(e) => Err(e),
            None => {
                let fields = Self::fields(env);
                if fields.schema_cache_ttl is None && Self::doubled_refresh_interval(env) is Err {
                    Err(Self::doubled_refresh_interval(env)->Err_0)
                } else {
                    Ok(fields)
                }
            },
        }
    }

    /// Resolves the fields from the variables in `env`: each of them, or
    /// nothing but the first rejection.
    pub fn init_from_snapshot(env: &EnvSnapshot) -> (r: Result<InnerStore, ConfigError>)
        ensures
            match r {
                Ok(fields) => Self::resolve(env@) == Resolved::<InnerStoreView>::Ok(fields@),
                Err(e) => Self::resolve(env@) == Resolved::<InnerStoreView>::Err(e@),
            },
    {
        let chain_head_watcher_timeout_in_secs = read_u64(
            env,
            GRAPH_CHAIN_HEAD_WATCHER_TIMEOUT,
            Some("30"),
            u64::MAX,
        )?;
        let query_stats_refresh_interval_in_secs = read_u64(
            env,
            GRAPH_QUERY_STATS_REFRESH_INTERVAL,
            Some("300"),
            u64::MAX,
        )?;
        let schema_cache_ttl = read_optional_u64(env, GRAPH_SCHEMA_CACHE_TTL)?;
        let extra_query_permits = read_usize(
            env,
            GRAPH_EXTRA_QUERY_PERMITS,
            Some("0"),
            usize::MAX,
        )?;
        let large_notification_cleanup_interval_in_secs = read_u64(
            env,
            LARGE_NOTIFICATION_CLEANUP_INTERVAL,
            Some("300"),
            u64::MAX,
        )?;
        let notification_broadcast_timeout_in_secs = read_u64(
            env,
            GRAPH_NOTIFICATION_BROADCAST_TIMEOUT,
            Some("60"),
            u64::MAX,
        )?;
        let typea_batch_size = read_usize(env, TYPEA_BATCH_SIZE, Some("150"), usize::MAX)?;
        let typed_children_set_size = read_usize(
            env,
            TYPED_CHILDREN_SET_SIZE,
            Some("150"),
            usize::MAX,
        )?;
        let order_by_block_range = read_bool(env, ORDER_BY_BLOCK_RANGE, Some("true"))?;
        let remove_unused_interval_in_minutes = read_u64(
            env,
            GRAPH_REMOVE_UNUSED_INTERVAL,
            Some("360"),
            MAX_DELTA_MINUTES,
        )?;
        let recent_blocks_cache_capacity = read_usize(
            env,
            GRAPH_STORE_RECENT_BLOCKS_CACHE_CAPACITY,
            Some("10"),
            usize::MAX,
        )?;
        let connection_timeout_in_millis = read_u64(
            env,
            GRAPH_STORE_CONNECTION_TIMEOUT,
            Some("5000"),
            u64::MAX,
        )?;
        let connection_min_idle = read_optional_u32(env, GRAPH_STORE_CONNECTION_MIN_IDLE)?;
        let connection_idle_timeout_in_secs = read_u64(
            env,
            GRAPH_STORE_CONNECTION_IDLE_TIMEOUT,
            Some("600"),
            u64::MAX,
        )?;
        let write_queue_size = read_usize(env, GRAPH_STORE_WRITE_QUEUE, Some("5"), usize::MAX)?;
        let batch_target_duration_in_secs = read_u64(
            env,
            GRAPH_STORE_BATCH_TARGET_DURATION,
            Some("180"),
            u64::MAX,
        )?;
        let rebuild_threshold = read_zero_to_one(
            env,
            GRAPH_STORE_HISTORY_REBUILD_THRESHOLD,
            Some("0.5"),
        )?;
        let delete_threshold = read_zero_to_one(
            env,
            GRAPH_STORE_HISTORY_DELETE_THRESHOLD,
            Some("0.05"),
        )?;
        let history_slack_factor = read_history_slack(
            env,
            GRAPH_STORE_HISTORY_SLACK_FACTOR,
            Some("1.2"),
        )?;
        let write_batch_duration_in_secs = read_u64(
            env,
            GRAPH_STORE_WRITE_BATCH_DURATION,
            Some("300"),
            u64::MAX,
        )?;
        let write_batch_size = read_usize(
            env,
            GRAPH_STORE_WRITE_BATCH_SIZE,
            Some("10000"),
            MAX_KILOBYTES,
        )?;
        let create_gin_indexes = read_bool(env, GRAPH_STORE_CREATE_GIN_INDEXES, Some("false"))?;
        let use_brin_for_all_query_types = read_bool(
            env,
            GRAPH_STORE_USE_BRIN_FOR_ALL_QUERY_TYPES,
            Some("false"),
        )?;
        let disable_block_cache_for_lookup = read_bool(
            env,
            GRAPH_STORE_DISABLE_BLOCK_CACHE_FOR_LOOKUP,
            Some("false"),
        )?;
        let last_rollup_from_poi = read_bool(env, GRAPH_STORE_LAST_ROLLUP_FROM_POI, Some("false"))?;
        let insert_extra_cols = read_usize(
            env,
            GRAPH_STORE_INSERT_EXTRA_COLS,
            Some("0"),
            usize::MAX,
        )?;
        let fdw_fetch_size = read_usize(
            env,
            GRAPH_STORE_FDW_FETCH_SIZE,
            Some("10000"),
            usize::MAX,
        )?;
        if schema_cache_ttl.is_none() {
            read_u64(env, GRAPH_QUERY_STATS_REFRESH_INTERVAL, Some("300"), MAX_DOUBLED_SECS)?;
        }
        Ok(
            InnerStore {
                chain_head_watcher_timeout_in_secs,
                query_stats_refresh_interval_in_secs,
                schema_cache_ttl,
                extra_query_permits,
                large_notification_cleanup_interval_in_secs,
                notification_broadcast_timeout_in_secs,
                typea_batch_size,
                typed_children_set_size,
                order_by_block_range,
                remove_unused_interval_in_minutes,
                recent_blocks_cache_capacity,
                connection_timeout_in_millis,
                connection_min_idle,
                connection_idle_timeout_in_secs,
                write_queue_size,
                batch_target_duration_in_secs,
                rebuild_threshold,
                delete_threshold,
                history_slack_factor,
                write_batch_duration_in_secs,
                write_batch_size,
                create_gin_indexes,
                use_brin_for_all_query_types,
                disable_block_cache_for_lookup,
                last_rollup_from_poi,
                insert_extra_cols,
                fdw_fetch_size,
            },
        )
    }
}

/// The configuration of the store. It is assembled once and only read from
/// then on.
pub struct EnvVarsStore {
    /// How long the chain head watcher waits. Set by
    /// `GRAPH_CHAIN_HEAD_WATCHER_TIMEOUT`, in seconds; 30 seconds where
    /// unset.
    pub chain_head_watcher_timeout: Duration,
    /// How long statistics that influence query execution are cached
    /// before they are reloaded. Set by
    /// `GRAPH_QUERY_STATS_REFRESH_INTERVAL`, in seconds; 300 seconds where
    /// unset.
    pub query_stats_refresh_interval: Duration,
    /// How long entries in the schema cache are kept before they are
    /// evicted. Set by `GRAPH_SCHEMA_CACHE_TTL`, in seconds; twice
    /// `query_stats_refresh_interval` where unset.
    pub schema_cache_ttl: Duration,
    /// Permits added to the query semaphore. Set by
    /// `GRAPH_EXTRA_QUERY_PERMITS`; 0 where unset.
    pub extra_query_permits: usize,
    /// Set by `LARGE_NOTIFICATION_CLEANUP_INTERVAL`, in seconds; 300
    /// seconds where unset.
    pub large_notification_cleanup_interval: Duration,
    /// Set by `GRAPH_NOTIFICATION_BROADCAST_TIMEOUT`, in seconds; 60
    /// seconds where unset.
    pub notification_broadcast_timeout: Duration,
    /// Set by `TYPEA_BATCH_SIZE`; 150 where unset.
    pub typea_batch_size: usize,
    /// Set by `TYPED_CHILDREN_SET_SIZE`; 150 where unset. Zero turns the
    /// optimization off.
    pub typed_children_set_size: usize,
    /// Whether `ORDER BY id` becomes `ORDER BY id, block_range` in some
    /// queries. Set by `ORDER_BY_BLOCK_RANGE`; true where unset.
    pub order_by_block_range: bool,
    /// Set by `GRAPH_REMOVE_UNUSED_INTERVAL`, in minutes; 360 minutes where
    /// unset.
    pub remove_unused_interval: chrono::Duration,
    /// Set by `GRAPH_STORE_RECENT_BLOCKS_CACHE_CAPACITY`; 10 blocks where
    /// unset.
    pub recent_blocks_cache_capacity: usize,
    /// Set by `GRAPH_STORE_CONNECTION_TIMEOUT`, in milliseconds; 5000
    /// milliseconds where unset.
    pub connection_timeout: Duration,
    /// Set by `GRAPH_STORE_CONNECTION_MIN_IDLE`; no default: unset where the
    /// variable is.
    pub connection_min_idle: Option<u32>,
    /// Set by `GRAPH_STORE_CONNECTION_IDLE_TIMEOUT`, in seconds; 600
    /// seconds where unset.
    pub connection_idle_timeout: Duration,
    /// How many blocks can be buffered for writing. Set by
    /// `GRAPH_STORE_WRITE_QUEUE`; 5 where unset. Zero makes writes
    /// synchronous.
    pub write_queue_size: usize,
    /// How long a batch operation should take while copying or grafting.
    /// Set by `GRAPH_STORE_BATCH_TARGET_DURATION`, in seconds; 180 seconds
    /// where unset.
    pub batch_target_duration: Duration,
    /// Tables of which at least this fraction of entity versions would go
    /// are pruned by rebuilding. Set by
    /// `GRAPH_STORE_HISTORY_REBUILD_THRESHOLD`; 0.5 where unset.
    pub rebuild_threshold: ZeroToOne,
    /// Tables of which at least this fraction of entity versions would go,
    /// but less than `rebuild_threshold`, are pruned by deleting. Set by
    /// `GRAPH_STORE_HISTORY_DELETE_THRESHOLD`; 0.05 where unset.
    pub delete_threshold: ZeroToOne,
    /// How much history beyond its limit a subgraph may gather before it is
    /// pruned, as a factor of the limit. Set by
    /// `GRAPH_STORE_HISTORY_SLACK_FACTOR`; 1.2 where unset, and never below
    /// 1.01.
    pub history_slack_factor: HistorySlack,
    /// How long changes are gathered into a batch before they are written.
    /// Set by `GRAPH_STORE_WRITE_BATCH_DURATION`, in seconds; 300 seconds
    /// where unset. Zero turns batching off.
    pub write_batch_duration: Duration,
    /// How many bytes of changes are gathered before they are written. Set
    /// by `GRAPH_STORE_WRITE_BATCH_SIZE`, in kilobytes; 10,000 kilobytes
    /// where unset. Zero turns batching off.
    pub write_batch_size: usize,
    /// Whether GIN indexes are made for array attributes. Set by
    /// `GRAPH_STORE_CREATE_GIN_INDEXES`; false where unset.
    pub create_gin_indexes: bool,
    /// Set by `GRAPH_STORE_USE_BRIN_FOR_ALL_QUERY_TYPES`; false where
    /// unset.
    pub use_brin_for_all_query_types: bool,
    /// Set by `GRAPH_STORE_DISABLE_BLOCK_CACHE_FOR_LOOKUP`; false where
    /// unset.
    pub disable_block_cache_for_lookup: bool,
    /// Whether the time of the last rollup is taken from the POI table.
    /// Set by `GRAPH_STORE_LAST_ROLLUP_FROM_POI`; false where unset.
    pub last_rollup_from_poi: bool,
    /// Columns added when the size of an insert chunk is worked out. Set
    /// by `GRAPH_STORE_INSERT_EXTRA_COLS`; 0 where unset.
    pub insert_extra_cols: usize,
    /// How many rows are fetched from a foreign server in one go. Set by
    /// `GRAPH_STORE_FDW_FETCH_SIZE`; 10,000 where unset.
    pub fdw_fetch_size: usize,
}

/// An `EnvVarsStore` as plain values: each `Duration` in nanoseconds, the
/// `chrono::Duration` in milliseconds, sizes in bytes, each ratio as the
/// literal it was written as.
pub struct EnvVarsStoreView {
    pub chain_head_watcher_timeout: nat,
    pub query_stats_refresh_interval: nat,
    pub schema_cache_ttl: nat,
    pub extra_query_permits: usize,
    pub large_notification_cleanup_interval: nat,
    pub notification_broadcast_timeout: nat,
    pub typea_batch_size: usize,
    pub typed_children_set_size: usize,
    pub order_by_block_range: bool,
    pub remove_unused_interval: int,
    pub recent_blocks_cache_capacity: usize,
    pub connection_timeout: nat,
    pub connection_min_idle: Option<u32>,
    pub connection_idle_timeout: nat,
    pub write_queue_size: usize,
    pub batch_target_duration: nat,
    pub rebuild_threshold: Seq<char>,
    pub delete_threshold: Seq<char>,
    pub history_slack_factor: Seq<char>,
    pub write_batch_duration: nat,
    pub write_batch_size: usize,
    pub create_gin_indexes: bool,
    pub use_brin_for_all_query_types: bool,
    pub disable_block_cache_for_lookup: bool,
    pub last_rollup_from_poi: bool,
    pub insert_extra_cols: usize,
    pub fdw_fetch_size: usize,
}

impl View for EnvVarsStore {
    type V = EnvVarsStoreView;

    open spec fn view(&self) -> EnvVarsStoreView {
        EnvVarsStoreView {
            chain_head_watcher_timeout: duration_nanos(self.chain_head_watcher_timeout),
            query_stats_refresh_interval: duration_nanos(self.query_stats_refresh_interval),
            schema_cache_ttl: duration_nanos(self.schema_cache_ttl),
            extra_query_permits: self.extra_query_permits,
            large_notification_cleanup_interval: duration_nanos(
                self.large_notification_cleanup_interval,
            ),
            notification_broadcast_timeout: duration_nanos(self.notification_broadcast_timeout),
            typea_batch_size: self.typea_batch_size,
            typed_children_set_size: self.typed_children_set_size,
            order_by_block_range: self.order_by_block_range,
            remove_unused_interval: delta_millis(self.remove_unused_interval),
            recent_blocks_cache_capacity: self.recent_blocks_cache_capacity,
            connection_timeout: duration_nanos(self.connection_timeout),
            connection_min_idle: self.connection_min_idle,
            connection_idle_timeout: duration_nanos(self.connection_idle_timeout),
            write_queue_size: self.write_queue_size,
            batch_target_duration: duration_nanos(self.batch_target_duration),
            rebuild_threshold: self.rebuild_threshold@,
            delete_threshold: self.delete_threshold@,
            history_slack_factor: self.history_slack_factor@,
            write_batch_duration: duration_nanos(self.write_batch_duration),
            write_batch_size: self.write_batch_size,
            create_gin_indexes: self.create_gin_indexes,
            use_brin_for_all_query_types: self.use_brin_for_all_query_types,
            disable_block_cache_for_lookup: self.disable_block_cache_for_lookup,
            last_rollup_from_poi: self.last_rollup_from_poi,
            insert_extra_cols: self.insert_extra_cols,
            fdw_fetch_size: self.fdw_fetch_size,
        }
    }
}

/// A number of seconds, in nanoseconds.
pub open spec fn secs_in_nanos(secs: int) -> nat {
    (secs * 1_000_000_000) as nat
}

/// A number of milliseconds, in nanoseconds.
pub open spec fn millis_in_nanos(millis: int) -> nat {
    (millis * 1_000_000) as nat
}

/// A number of minutes, in milliseconds.
pub open spec fn minutes_in_millis(minutes: int) -> int {
    minutes * 60_000
}

/// The configuration that the fields `x` make: every span of time and every
/// size in its final unit, and the time for which the schema cache keeps an
/// entry settled.
pub open spec fn assemble(x: InnerStoreView) -> EnvVarsStoreView {
    EnvVarsStoreView {
        chain_head_watcher_timeout: secs_in_nanos(x.chain_head_watcher_timeout_in_secs as int),
        query_stats_refresh_interval: secs_in_nanos(x.query_stats_refresh_interval_in_secs as int),
        schema_cache_ttl: secs_in_nanos(schema_cache_ttl_in_secs(x)),
        extra_query_permits: x.extra_query_permits,
        large_notification_cleanup_interval: secs_in_nanos(
            x.large_notification_cleanup_interval_in_secs as int,
        ),
        notification_broadcast_timeout: secs_in_nanos(
            x.notification_broadcast_timeout_in_secs as int,
        ),
        typea_batch_size: x.typea_batch_size,
        typed_children_set_size: x.typed_children_set_size,
        order_by_block_range: x.order_by_block_range,
        remove_unused_interval: minutes_in_millis(x.remove_unused_interval_in_minutes as int),
        recent_blocks_cache_capacity: x.recent_blocks_cache_capacity,
        connection_timeout: millis_in_nanos(x.connection_timeout_in_millis as int),
        connection_min_idle: x.connection_min_idle,
        connection_idle_timeout: secs_in_nanos(x.connection_idle_timeout_in_secs as int),
        write_queue_size: x.write_queue_size,
        batch_target_duration: secs_in_nanos(x.batch_target_duration_in_secs as int),
        rebuild_threshold: x.rebuild_threshold,
        delete_threshold: x.delete_threshold,
        history_slack_factor: x.history_slack_factor,
        write_batch_duration: secs_in_nanos(x.write_batch_duration_in_secs as int),
        write_batch_size: (x.write_batch_size * BYTES_PER_KILOBYTE) as usize,
        create_gin_indexes: x.create_gin_indexes,
        use_brin_for_all_query_types: x.use_brin_for_all_query_types,
        disable_block_cache_for_lookup: x.disable_block_cache_for_lookup,
        last_rollup_from_poi: x.last_rollup_from_poi,
        insert_extra_cols: x.insert_extra_cols,
        fdw_fetch_size: x.fdw_fetch_size,
    }
}

impl From<InnerStore> for EnvVarsStore {
    /// Brings the fields to their final units and settles the time for
    /// which the schema cache keeps an entry.
    fn from(x: InnerStore) -> (store: Self)
        ensures
            store@ == assemble(x@),
    {
        proof {
            use_type_invariant(&x);
        }
        let schema_cache_ttl = match x.schema_cache_ttl {
            Some(ttl) => Duration::from_secs(ttl),
            None => Duration::from_secs(2 * x.query_stats_refresh_interval_in_secs),
        };
        Self {
            chain_head_watcher_timeout: Duration::from_secs(x.chain_head_watcher_timeout_in_secs),
            query_stats_refresh_interval: Duration::from_secs(
                x.query_stats_refresh_interval_in_secs,
            ),
            schema_cache_ttl,
            extra_query_permits: x.extra_query_permits,
            large_notification_cleanup_interval: Duration::from_secs(
                x.large_notification_cleanup_interval_in_secs,
            ),
            notification_broadcast_timeout: Duration::from_secs(
                x.notification_broadcast_timeout_in_secs,
            ),
            typea_batch_size: x.typea_batch_size,
            typed_children_set_size: x.typed_children_set_size,
            order_by_block_range: x.order_by_block_range,
            remove_unused_interval: chrono::Duration::minutes(
                x.remove_unused_interval_in_minutes as i64,
            ),
            recent_blocks_cache_capacity: x.recent_blocks_cache_capacity,
            connection_timeout: Duration::from_millis(x.connection_timeout_in_millis),
            connection_min_idle: x.connection_min_idle,
            connection_idle_timeout: Duration::from_secs(x.connection_idle_timeout_in_secs),
            write_queue_size: x.write_queue_size,
            batch_target_duration: Duration::from_secs(x.batch_target_duration_in_secs),
            rebuild_threshold: x.rebuild_threshold,
            delete_threshold: x.delete_threshold,
            history_slack_factor: x.history_slack_factor,
            write_batch_duration: Duration::from_secs(x.write_batch_duration_in_secs),
            write_batch_size: x.write_batch_size * BYTES_PER_KILOBYTE,
            create_gin_indexes: x.create_gin_indexes,
            use_brin_for_all_query_types: x.use_brin_for_all_query_types,
            disable_block_cache_for_lookup: x.disable_block_cache_for_lookup,
            last_rollup_from_poi: x.last_rollup_from_poi,
            insert_extra_cols: x.insert_extra_cols,
            fdw_fetch_size: x.fdw_fetch_size,
        }
    }
}

/// The conversion is stated over views, by `assemble`: a value of
/// `EnvVarsStore` holds spans of time that only the conversion itself can
/// make, so no function of the specification returns one.
impl vstd::std_specs::convert::FromSpecImpl<InnerStore> for EnvVarsStore {
    open spec fn obeys_from_spec() -> bool {
        false
    }

    open spec fn from_spec(x: InnerStore) -> Self {
        arbitrary()
    }
}

impl EnvVarsStore {
    /// What the variables `env` resolve to: the configuration, or the
    /// rejection of the first variable that is refused.
    pub open spec fn resolve(env: Variables) -> Resolved<EnvVarsStoreView> {
        match InnerStore::resolve(env) {
            Ok(fields) => Ok(assemble(fields)),
            Err(e) => Err(e),
        }
    }

    /// Resolves the configuration from the variables in `env`: all of it,
    /// or nothing but the first rejection.
    pub fn from_snapshot(env: &EnvSnapshot) -> (r: Result<EnvVarsStore, ConfigError>)
        ensures
            match r {
                Ok(store) => Self::resolve(env@) == Resolved::<EnvVarsStoreView>::Ok(store@),
                Err(e) => Self::resolve(env@) == Resolved::<EnvVarsStoreView>::Err(e@),
            },
    {
        match InnerStore::init_from_snapshot(env) {
            Ok(fields) => Ok(EnvVarsStore::from(fields)),
            Err(e) => Err(e),
        }
    }

    /// The text that stands for the configuration where it is shown, in a
    /// log or elsewhere: the same for every configuration, so that no value
    /// of a field can be read from it.
    pub fn debug_string(&self) -> (text: String)
        ensures
            text@ == "env vars"@,
    {
        "env vars".to_owned()
    }
}

impl Clone for EnvVarsStore {
    fn clone(&self) -> (r: Self)
        ensures
            r@ == self@,
    {
        EnvVarsStore {
            chain_head_watcher_timeout: self.chain_head_watcher_timeout,
            query_stats_refresh_interval: self.query_stats_refresh_interval,
            schema_cache_ttl: self.schema_cache_ttl,
            extra_query_permits: self.extra_query_permits,
            large_notification_cleanup_interval: self.large_notification_cleanup_interval,
            notification_broadcast_timeout: self.notification_broadcast_timeout,
            typea_batch_size: self.typea_batch_size,
            typed_children_set_size: self.typed_children_set_size,
            order_by_block_range: self.order_by_block_range,
            remove_unused_interval: self.remove_unused_interval,
            recent_blocks_cache_capacity: self.recent_blocks_cache_capacity,
            connection_timeout: self.connection_timeout,
            connection_min_idle: self.connection_min_idle,
            connection_idle_timeout: self.connection_idle_timeout,
            write_queue_size: self.write_queue_size,
            batch_target_duration: self.batch_target_duration,
            rebuild_threshold: self.rebuild_threshold.clone(),
            delete_threshold: self.delete_threshold.clone(),
            history_slack_factor: self.history_slack_factor.clone(),
            write_batch_duration: self.write_batch_duration,
            write_batch_size: self.write_batch_size,
            create_gin_indexes: self.create_gin_indexes,
            use_brin_for_all_query_types: self.use_brin_for_all_query_types,
            disable_block_cache_for_lookup: self.disable_block_cache_for_lookup,
            last_rollup_from_poi: self.last_rollup_from_poi,
            insert_extra_cols: self.insert_extra_cols,
            fdw_fetch_size: self.fdw_fetch_size,
        }
    }
}

} // verus!
