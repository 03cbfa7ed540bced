//! What holds of every resolution, proved from the definitions.

use crate::decimal::{lemma_plain_decimal, literal_number, plain_decimal, scaled_le};
use crate::digits::{digits_value, pow10};
use crate::error::{ConfigErrorView, ErrorKind};
use crate::field::{rejection, Resolved};
use crate::names::{
    is_recognized, lemma_field_numbers, lemma_names_are_recognized,
    GRAPH_CHAIN_HEAD_WATCHER_TIMEOUT, GRAPH_EXTRA_QUERY_PERMITS,
    GRAPH_NOTIFICATION_BROADCAST_TIMEOUT, GRAPH_QUERY_STATS_REFRESH_INTERVAL,
    GRAPH_REMOVE_UNUSED_INTERVAL, GRAPH_SCHEMA_CACHE_TTL, GRAPH_STORE_BATCH_TARGET_DURATION,
    GRAPH_STORE_CONNECTION_IDLE_TIMEOUT, GRAPH_STORE_CONNECTION_MIN_IDLE,
    GRAPH_STORE_CONNECTION_TIMEOUT, GRAPH_STORE_CREATE_GIN_INDEXES,
    GRAPH_STORE_DISABLE_BLOCK_CACHE_FOR_LOOKUP, GRAPH_STORE_FDW_FETCH_SIZE,
    GRAPH_STORE_HISTORY_DELETE_THRESHOLD, GRAPH_STORE_HISTORY_REBUILD_THRESHOLD,
    GRAPH_STORE_HISTORY_SLACK_FACTOR, GRAPH_STORE_INSERT_EXTRA_COLS,
    GRAPH_STORE_LAST_ROLLUP_FROM_POI, GRAPH_STORE_RECENT_BLOCKS_CACHE_CAPACITY,
    GRAPH_STORE_USE_BRIN_FOR_ALL_QUERY_TYPES, GRAPH_STORE_WRITE_BATCH_DURATION,
    GRAPH_STORE_WRITE_BATCH_SIZE, GRAPH_STORE_WRITE_QUEUE, LARGE_NOTIFICATION_CLEANUP_INTERVAL,
    ORDER_BY_BLOCK_RANGE, TYPEA_BATCH_SIZE, TYPED_CHILDREN_SET_SIZE,
};
use crate::number::{unsigned_literal, unsigned_up_to};
use crate::scalar::{is_slack_factor, is_unit_ratio};
use crate::snapshot::Variables;
use crate::store::{
    assemble, derivable, secs_in_nanos, EnvVarsStore, EnvVarsStoreView, InnerStore,
    InnerStoreView,
};
use vstd::prelude::*;

verus! {

/// `name` is the variable of a field that holds an unsigned integer.
pub open spec fn is_integer_variable(name: Seq<char>) -> bool {
    ||| name == GRAPH_CHAIN_HEAD_WATCHER_TIMEOUT@
    ||| name == GRAPH_QUERY_STATS_REFRESH_INTERVAL@
    ||| name == GRAPH_SCHEMA_CACHE_TTL@
    ||| name == GRAPH_EXTRA_QUERY_PERMITS@
    ||| name == LARGE_NOTIFICATION_CLEANUP_INTERVAL@
    ||| name == GRAPH_NOTIFICATION_BROADCAST_TIMEOUT@
    ||| name == TYPEA_BATCH_SIZE@
    ||| name == TYPED_CHILDREN_SET_SIZE@
    ||| name == GRAPH_REMOVE_UNUSED_INTERVAL@
    ||| name == GRAPH_STORE_RECENT_BLOCKS_CACHE_CAPACITY@
    ||| name == GRAPH_STORE_CONNECTION_TIMEOUT@
    ||| name == GRAPH_STORE_CONNECTION_MIN_IDLE@
    ||| name == GRAPH_STORE_CONNECTION_IDLE_TIMEOUT@
    ||| name == GRAPH_STORE_WRITE_QUEUE@
    ||| name == GRAPH_STORE_BATCH_TARGET_DURATION@
    ||| name == GRAPH_STORE_WRITE_BATCH_DURATION@
    ||| name == GRAPH_STORE_WRITE_BATCH_SIZE@
    ||| name == GRAPH_STORE_INSERT_EXTRA_COLS@
    ||| name == GRAPH_STORE_FDW_FETCH_SIZE@
}

/// `name` is the variable of a field that holds a ratio.
pub open spec fn is_ratio_variable(name: Seq<char>) -> bool {
    ||| name == GRAPH_STORE_HISTORY_REBUILD_THRESHOLD@
    ||| name == GRAPH_STORE_HISTORY_DELETE_THRESHOLD@
    ||| name == GRAPH_STORE_HISTORY_SLACK_FACTOR@
}

/// The variables `a` and `b` set the variables of the fields alike.
pub open spec fn agree_on_fields(a: Variables, b: Variables) -> bool {
    forall|name: Seq<char>| #[trigger]
        is_recognized(name) ==> (a.contains_key(name) <==> b.contains_key(name)) && (
        a.contains_key(name) ==> a[name] == b[name])
}

/// No variable of a field other than `name` is set in `env`.
pub open spec fn sets_no_other_field(env: Variables, name: Seq<char>) -> bool {
    forall|other: Seq<char>| #[trigger]
        is_recognized(other) && other != name ==> !env.contains_key(other)
}

/// The fields with each at its default: what they resolve to where no
/// variable is set.
pub open spec fn defaults() -> InnerStoreView {
    InnerStoreView {
        chain_head_watcher_timeout_in_secs: 30,
        query_stats_refresh_interval_in_secs: 300,
        schema_cache_ttl: None,
        extra_query_permits: 0,
        large_notification_cleanup_interval_in_secs: 300,
        notification_broadcast_timeout_in_secs: 60,
        typea_batch_size: 150,
        typed_children_set_size: 150,
        order_by_block_range: true,
        remove_unused_interval_in_minutes: 360,
        recent_blocks_cache_capacity: 10,
        connection_timeout_in_millis: 5000,
        connection_min_idle: None,
        connection_idle_timeout_in_secs: 600,
        write_queue_size: 5,
        batch_target_duration_in_secs: 180,
        rebuild_threshold: "0.5"@,
        delete_threshold: "0.05"@,
        history_slack_factor: "1.2"@,
        write_batch_duration_in_secs: 300,
        write_batch_size: 10000,
        create_gin_indexes: false,
        use_brin_for_all_query_types: false,
        disable_block_cache_for_lookup: false,
        last_rollup_from_poi: false,
        insert_extra_cols: 0,
        fdw_fetch_size: 10000,
    }
}

/// The defaults are literals for the values that they look like.
proof fn lemma_default_literals()
    ensures
        unsigned_literal("0"@) == Some(0nat),
        unsigned_literal("5"@) == Some(5nat),
        unsigned_literal("10"@) == Some(10nat),
        unsigned_literal("30"@) == Some(30nat),
        unsigned_literal("60"@) == Some(60nat),
        unsigned_literal("150"@) == Some(150nat),
        unsigned_literal("180"@) == Some(180nat),
        unsigned_literal("300"@) == Some(300nat),
        unsigned_literal("360"@) == Some(360nat),
        unsigned_literal("600"@) == Some(600nat),
        unsigned_literal("5000"@) == Some(5000nat),
        unsigned_literal("10000"@) == Some(10000nat),
        "true"@ == seq!['t', 'r', 'u', 'e'],
        "false"@ == seq!['f', 'a', 'l', 's', 'e'],
        is_unit_ratio("0.5"@),
        is_unit_ratio("0.05"@),
        is_slack_factor("1.2"@),
{
    reveal_strlit("0");
    reveal_strlit("5");
    reveal_strlit("10");
    reveal_strlit("30");
    reveal_strlit("60");
    reveal_strlit("150");
    reveal_strlit("180");
    reveal_strlit("300");
    reveal_strlit("360");
    reveal_strlit("600");
    reveal_strlit("5000");
    reveal_strlit("10000");
    reveal_strlit("true");
    reveal_strlit("false");
    reveal_strlit("0.5");
    reveal_strlit("0.05");
    reveal_strlit("1.2");
    reveal_with_fuel(digits_value, 6);
    reveal_with_fuel(pow10, 3);
    assert("true"@ =~= seq!['t', 'r', 'u', 'e']);
    assert("false"@ =~= seq!['f', 'a', 'l', 's', 'e']);
    assert(is_unit_ratio("0.5"@)) by {
        lemma_plain_decimal(false, seq!['0'], seq!['5']);
        assert("0.5"@ =~= plain_decimal(false, seq!['0'], seq!['5']));
        assert(seq!['0'] + seq!['5'] =~= seq!['0', '5']);
    }
    assert(is_unit_ratio("0.05"@)) by {
        lemma_plain_decimal(false, seq!['0'], seq!['0', '5']);
        assert("0.05"@ =~= plain_decimal(false, seq!['0'], seq!['0', '5']));
        assert(seq!['0'] + seq!['0', '5'] =~= seq!['0', '0', '5']);
    }
    assert(is_slack_factor("1.2"@)) by {
        lemma_plain_decimal(false, seq!['1'], seq!['2']);
        assert("1.2"@ =~= plain_decimal(false, seq!['1'], seq!['2']));
        assert(seq!['1'] + seq!['2'] =~= seq!['1', '2']);
        assert(scaled_le(101, -2, 12, -1));
    }
}

/// A field whose variable is not set resolves to its default; a field
/// without a default resolves to nothing, which is no fault.
pub proof fn lemma_unset_fields(env: Variables)
    ensures
        !env.contains_key(GRAPH_CHAIN_HEAD_WATCHER_TIMEOUT@)
            ==> InnerStore::chain_head_watcher_timeout_in_secs(env) == Resolved::<u64>::Ok(30),
        !env.contains_key(GRAPH_QUERY_STATS_REFRESH_INTERVAL@)
            ==> InnerStore::query_stats_refresh_interval_in_secs(env) == Resolved::<u64>::Ok(300),
        !env.contains_key(GRAPH_SCHEMA_CACHE_TTL@)
            ==> InnerStore::schema_cache_ttl(env) == Resolved::<Option<u64>>::Ok(None),
        !env.contains_key(GRAPH_EXTRA_QUERY_PERMITS@)
            ==> InnerStore::extra_query_permits(env) == Resolved::<usize>::Ok(0),
        !env.contains_key(LARGE_NOTIFICATION_CLEANUP_INTERVAL@)
            ==> InnerStore::large_notification_cleanup_interval_in_secs(env)
                == Resolved::<u64>::Ok(300),
        !env.contains_key(GRAPH_NOTIFICATION_BROADCAST_TIMEOUT@)
            ==> InnerStore::notification_broadcast_timeout_in_secs(env) == Resolved::<u64>::Ok(60),
        !env.contains_key(TYPEA_BATCH_SIZE@)
            ==> InnerStore::typea_batch_size(env) == Resolved::<usize>::Ok(150),
        !env.contains_key(TYPED_CHILDREN_SET_SIZE@)
            ==> InnerStore::typed_children_set_size(env) == Resolved::<usize>::Ok(150),
        !env.contains_key(ORDER_BY_BLOCK_RANGE@)
            ==> InnerStore::order_by_block_range(env) == Resolved::<bool>::Ok(true),
        !env.contains_key(GRAPH_REMOVE_UNUSED_INTERVAL@)
            ==> InnerStore::remove_unused_interval_in_minutes(env) == Resolved::<u64>::Ok(360),
        !env.contains_key(GRAPH_STORE_RECENT_BLOCKS_CACHE_CAPACITY@)
            ==> InnerStore::recent_blocks_cache_capacity(env) == Resolved::<usize>::Ok(10),
        !env.contains_key(GRAPH_STORE_CONNECTION_TIMEOUT@)
            ==> InnerStore::connection_timeout_in_millis(env) == Resolved::<u64>::Ok(5000),
        !env.contains_key(GRAPH_STORE_CONNECTION_MIN_IDLE@)
            ==> InnerStore::connection_min_idle(env) == Resolved::<Option<u32>>::Ok(None),
        !env.contains_key(GRAPH_STORE_CONNECTION_IDLE_TIMEOUT@)
            ==> InnerStore::connection_idle_timeout_in_secs(env) == Resolved::<u64>::Ok(600),
        !env.contains_key(GRAPH_STORE_WRITE_QUEUE@)
            ==> InnerStore::write_queue_size(env) == Resolved::<usize>::Ok(5),
        !env.contains_key(GRAPH_STORE_BATCH_TARGET_DURATION@)
            ==> InnerStore::batch_target_duration_in_secs(env) == Resolved::<u64>::Ok(180),
        !env.contains_key(GRAPH_STORE_HISTORY_REBUILD_THRESHOLD@)
            ==> InnerStore::rebuild_threshold(env) == Resolved::<Seq<char>>::Ok("0.5"@),
        !env.contains_key(GRAPH_STORE_HISTORY_DELETE_THRESHOLD@)
            ==> InnerStore::delete_threshold(env) == Resolved::<Seq<char>>::Ok("0.05"@),
        !env.contains_key(GRAPH_STORE_HISTORY_SLACK_FACTOR@)
            ==> InnerStore::history_slack_factor(env) == Resolved::<Seq<char>>::Ok("1.2"@),
        !env.contains_key(GRAPH_STORE_WRITE_BATCH_DURATION@)
            ==> InnerStore::write_batch_duration_in_secs(env) == Resolved::<u64>::Ok(300),
        !env.contains_key(GRAPH_STORE_WRITE_BATCH_SIZE@)
            ==> InnerStore::write_batch_size(env) == Resolved::<usize>::Ok(10000),
        !env.contains_key(GRAPH_STORE_CREATE_GIN_INDEXES@)
            ==> InnerStore::create_gin_indexes(env) == Resolved::<bool>::Ok(false),
        !env.contains_key(GRAPH_STORE_USE_BRIN_FOR_ALL_QUERY_TYPES@)
            ==> InnerStore::use_brin_for_all_query_types(env) == Resolved::<bool>::Ok(false),
        !env.contains_key(GRAPH_STORE_DISABLE_BLOCK_CACHE_FOR_LOOKUP@)
            ==> InnerStore::disable_block_cache_for_lookup(env) == Resolved::<bool>::Ok(false),
        !env.contains_key(GRAPH_STORE_LAST_ROLLUP_FROM_POI@)
            ==> InnerStore::last_rollup_from_poi(env) == Resolved::<bool>::Ok(false),
        !env.contains_key(GRAPH_STORE_INSERT_EXTRA_COLS@)
            ==> InnerStore::insert_extra_cols(env) == Resolved::<usize>::Ok(0),
        !env.contains_key(GRAPH_STORE_FDW_FETCH_SIZE@)
            ==> InnerStore::fdw_fetch_size(env) == Resolved::<usize>::Ok(10000),
{
    lemma_default_literals();
}

/// Where no variable is set, each field resolves to its default, and the
/// schema cache keeps an entry for twice the refresh interval of 300
/// seconds.
pub proof fn lemma_nothing_set()
    ensures
        InnerStore::resolve(Variables::empty()) == Resolved::<InnerStoreView>::Ok(defaults()),
        EnvVarsStore::resolve(Variables::empty()) == Resolved::<EnvVarsStoreView>::Ok(
            assemble(defaults()),
        ),
        assemble(defaults()).schema_cache_ttl == secs_in_nanos(600),
{
    lemma_unset_fields(Variables::empty());
}

/// Two sets of variables that set the variables of the fields alike resolve
/// alike: to the same fields and the same configuration, or to the same
/// rejection. Variables of no field are not read.
pub proof fn lemma_resolution_reads_fields_only(a: Variables, b: Variables)
    requires
        agree_on_fields(a, b),
    ensures
        InnerStore::resolve(a) == InnerStore::resolve(b),
        EnvVarsStore::resolve(a) == EnvVarsStore::resolve(b),
{
    lemma_fields_agree(a, b);
}

/// Each field reads its own variable and no other.
proof fn lemma_fields_agree(a: Variables, b: Variables)
    requires
        agree_on_fields(a, b),
    ensures
        InnerStore::chain_head_watcher_timeout_in_secs(a)
            == InnerStore::chain_head_watcher_timeout_in_secs(b),
        InnerStore::query_stats_refresh_interval_in_secs(a)
            == InnerStore::query_stats_refresh_interval_in_secs(b),
        InnerStore::schema_cache_ttl(a) == InnerStore::schema_cache_ttl(b),
        InnerStore::extra_query_permits(a) == InnerStore::extra_query_permits(b),
        InnerStore::large_notification_cleanup_interval_in_secs(a)
            == InnerStore::large_notification_cleanup_interval_in_secs(b),
        InnerStore::notification_broadcast_timeout_in_secs(a)
            == InnerStore::notification_broadcast_timeout_in_secs(b),
        InnerStore::typea_batch_size(a) == InnerStore::typea_batch_size(b),
        InnerStore::typed_children_set_size(a) == InnerStore::typed_children_set_size(b),
        InnerStore::order_by_block_range(a) == InnerStore::order_by_block_range(b),
        InnerStore::remove_unused_interval_in_minutes(a)
            == InnerStore::remove_unused_interval_in_minutes(b),
        InnerStore::recent_blocks_cache_capacity(a) == InnerStore::recent_blocks_cache_capacity(b),
        InnerStore::connection_timeout_in_millis(a) == InnerStore::connection_timeout_in_millis(b),
        InnerStore::connection_min_idle(a) == InnerStore::connection_min_idle(b),
        InnerStore::connection_idle_timeout_in_secs(a)
            == InnerStore::connection_idle_timeout_in_secs(b),
        InnerStore::write_queue_size(a) == InnerStore::write_queue_size(b),
        InnerStore::batch_target_duration_in_secs(a)
            == InnerStore::batch_target_duration_in_secs(b),
        InnerStore::rebuild_threshold(a) == InnerStore::rebuild_threshold(b),
        InnerStore::delete_threshold(a) == InnerStore::delete_threshold(b),
        InnerStore::history_slack_factor(a) == InnerStore::history_slack_factor(b),
        InnerStore::write_batch_duration_in_secs(a) == InnerStore::write_batch_duration_in_secs(b),
        InnerStore::write_batch_size(a) == InnerStore::write_batch_size(b),
        InnerStore::create_gin_indexes(a) == InnerStore::create_gin_indexes(b),
        InnerStore::use_brin_for_all_query_types(a) == InnerStore::use_brin_for_all_query_types(b),
        InnerStore::disable_block_cache_for_lookup(a)
            == InnerStore::disable_block_cache_for_lookup(b),
        InnerStore::last_rollup_from_poi(a) == InnerStore::last_rollup_from_poi(b),
        InnerStore::insert_extra_cols(a) == InnerStore::insert_extra_cols(b),
        InnerStore::fdw_fetch_size(a) == InnerStore::fdw_fetch_size(b),
        InnerStore::doubled_refresh_interval(a) == InnerStore::doubled_refresh_interval(b),
{
    lemma_names_are_recognized();
}

/// A rejection is never the fault of an unset variable: it names the
/// variable of a field that is set, with the text that it holds, and says
/// that the text is malformed or out of range.
pub proof fn lemma_rejection_names_a_set_variable(env: Variables)
    ensures
        InnerStore::resolve(env) matches Err(e) ==> {
            &&& is_recognized(e.variable)
            &&& env.contains_key(e.variable)
            &&& e.raw == Some(env[e.variable])
            &&& e.kind != ErrorKind::MissingRequired
        },
{
    lemma_field_numbers();
    lemma_field_rejections(env);
}

/// The rejection `e` names the variable `name`, which is set, with the text
/// that it holds.
pub open spec fn names_set_variable(env: Variables, e: ConfigErrorView, name: Seq<char>) -> bool {
    &&& e.variable == name
    &&& env.contains_key(name)
    &&& e.raw == Some(env[name])
    &&& e.kind != ErrorKind::MissingRequired
}

/// Where a field does not resolve, its own variable is set, and the
/// rejection names it.
proof fn lemma_field_rejections(env: Variables)
    ensures
        InnerStore::chain_head_watcher_timeout_in_secs(env) matches Err(e)
            ==> names_set_variable(env, e, GRAPH_CHAIN_HEAD_WATCHER_TIMEOUT@),
        InnerStore::query_stats_refresh_interval_in_secs(env) matches Err(e)
            ==> names_set_variable(env, e, GRAPH_QUERY_STATS_REFRESH_INTERVAL@),
        InnerStore::schema_cache_ttl(env) matches Err(e)
            ==> names_set_variable(env, e, GRAPH_SCHEMA_CACHE_TTL@),
        InnerStore::extra_query_permits(env) matches Err(e)
            ==> names_set_variable(env, e, GRAPH_EXTRA_QUERY_PERMITS@),
        InnerStore::large_notification_cleanup_interval_in_secs(env) matches Err(e)
            ==> names_set_variable(env, e, LARGE_NOTIFICATION_CLEANUP_INTERVAL@),
        InnerStore::notification_broadcast_timeout_in_secs(env) matches Err(e)
            ==> names_set_variable(env, e, GRAPH_NOTIFICATION_BROADCAST_TIMEOUT@),
        InnerStore::typea_batch_size(env) matches Err(e)
            ==> names_set_variable(env, e, TYPEA_BATCH_SIZE@),
        InnerStore::typed_children_set_size(env) matches Err(e)
            ==> names_set_variable(env, e, TYPED_CHILDREN_SET_SIZE@),
        InnerStore::order_by_block_range(env) matches Err(e)
            ==> names_set_variable(env, e, ORDER_BY_BLOCK_RANGE@),
        InnerStore::remove_unused_interval_in_minutes(env) matches Err(e)
            ==> names_set_variable(env, e, GRAPH_REMOVE_UNUSED_INTERVAL@),
        InnerStore::recent_blocks_cache_capacity(env) matches Err(e)
            ==> names_set_variable(env, e, GRAPH_STORE_RECENT_BLOCKS_CACHE_CAPACITY@),
        InnerStore::connection_timeout_in_millis(env) matches Err(e)
            ==> names_set_variable(env, e, GRAPH_STORE_CONNECTION_TIMEOUT@),
        InnerStore::connection_min_idle(env) matches Err(e)
            ==> names_set_variable(env, e, GRAPH_STORE_CONNECTION_MIN_IDLE@),
        InnerStore::connection_idle_timeout_in_secs(env) matches Err(e)
            ==> names_set_variable(env, e, GRAPH_STORE_CONNECTION_IDLE_TIMEOUT@),
        InnerStore::write_queue_size(env) matches Err(e)
            ==> names_set_variable(env, e, GRAPH_STORE_WRITE_QUEUE@),
        InnerStore::batch_target_duration_in_secs(env) matches Err(e)
            ==> names_set_variable(env, e, GRAPH_STORE_BATCH_TARGET_DURATION@),
        InnerStore::rebuild_threshold(env) matches Err(e)
            ==> names_set_variable(env, e, GRAPH_STORE_HISTORY_REBUILD_THRESHOLD@),
        InnerStore::delete_threshold(env) matches Err(e)
            ==> names_set_variable(env, e, GRAPH_STORE_HISTORY_DELETE_THRESHOLD@),
        InnerStore::history_slack_factor(env) matches Err(e)
            ==> names_set_variable(env, e, GRAPH_STORE_HISTORY_SLACK_FACTOR@),
        InnerStore::write_batch_duration_in_secs(env) matches Err(e)
            ==> names_set_variable(env, e, GRAPH_STORE_WRITE_BATCH_DURATION@),
        InnerStore::write_batch_size(env) matches Err(e)
            ==> names_set_variable(env, e, GRAPH_STORE_WRITE_BATCH_SIZE@),
        InnerStore::create_gin_indexes(env) matches Err(e)
            ==> names_set_variable(env, e, GRAPH_STORE_CREATE_GIN_INDEXES@),
        InnerStore::use_brin_for_all_query_types(env) matches Err(e)
            ==> names_set_variable(env, e, GRAPH_STORE_USE_BRIN_FOR_ALL_QUERY_TYPES@),
        InnerStore::disable_block_cache_for_lookup(env) matches Err(e)
            ==> names_set_variable(env, e, GRAPH_STORE_DISABLE_BLOCK_CACHE_FOR_LOOKUP@),
        InnerStore::last_rollup_from_poi(env) matches Err(e)
            ==> names_set_variable(env, e, GRAPH_STORE_LAST_ROLLUP_FROM_POI@),
        InnerStore::insert_extra_cols(env) matches Err(e)
            ==> names_set_variable(env, e, GRAPH_STORE_INSERT_EXTRA_COLS@),
        InnerStore::fdw_fetch_size(env) matches Err(e)
            ==> names_set_variable(env, e, GRAPH_STORE_FDW_FETCH_SIZE@),
        InnerStore::doubled_refresh_interval(env) matches Err(e)
            ==> names_set_variable(env, e, GRAPH_QUERY_STATS_REFRESH_INTERVAL@),
{
    lemma_unset_fields(env);
    lemma_default_literals();
}

/// The fields that a set of variables resolves to are valid: each ratio is
/// in its range, and everything that is derived from the fields fits.
pub proof fn lemma_resolved_fields_are_valid(env: Variables)
    ensures
        InnerStore::resolve(env) matches Ok(x) ==> {
            &&& is_unit_ratio(x.rebuild_threshold)
            &&& is_unit_ratio(x.delete_threshold)
            &&& is_slack_factor(x.history_slack_factor)
            &&& derivable(x)
        },
{
}

/// The schema cache keeps an entry for the time that is set for it; where
/// none is set, for twice the refresh interval that the variables resolve
/// to, be it set or the default.
pub proof fn lemma_schema_cache_ttl(env: Variables)
    ensures
        EnvVarsStore::resolve(env) matches Ok(store) ==> store.schema_cache_ttl == (
        if env.contains_key(GRAPH_SCHEMA_CACHE_TTL@) {
            secs_in_nanos(
                unsigned_up_to(env[GRAPH_SCHEMA_CACHE_TTL@], u64::MAX as nat)->Some_0 as int,
            )
        } else {
            2 * store.query_stats_refresh_interval
        }),
{
}

/// A size that is written in kilobytes is held in bytes.
pub proof fn lemma_write_batch_size(env: Variables)
    ensures
        EnvVarsStore::resolve(env) matches Ok(store) ==> store.write_batch_size == 1000
            * InnerStore::write_batch_size(env)->Ok_0,
{
}

/// A field that may be left unset is no fault where it is: the field
/// resolves to nothing, and no rejection names its variable.
pub proof fn lemma_unset_optional_is_no_fault(env: Variables)
    ensures
        !env.contains_key(GRAPH_STORE_CONNECTION_MIN_IDLE@) ==> match InnerStore::resolve(env) {
            Ok(x) => x.connection_min_idle is None,
            Err(e) => e.variable != GRAPH_STORE_CONNECTION_MIN_IDLE@,
        },
        !env.contains_key(GRAPH_SCHEMA_CACHE_TTL@) ==> match InnerStore::resolve(env) {
            Ok(x) => x.schema_cache_ttl is None,
            Err(e) => e.variable != GRAPH_SCHEMA_CACHE_TTL@,
        },
{
    lemma_rejection_names_a_set_variable(env);
}

/// Text that is no number is refused: where the variable of a field that
/// holds an unsigned integer is set to text that is no unsigned integer, or
/// that of a field that holds a ratio to text that is no decimal literal,
/// the variables resolve to a rejection. Where no other field's variable
/// is set, the rejection is that the text is malformed, and it names that
/// variable and that text.
pub proof fn lemma_malformed_number_is_refused(env: Variables, name: Seq<char>)
    requires
        env.contains_key(name),
        (is_integer_variable(name) && unsigned_literal(env[name]) is None) || (is_ratio_variable(
            name,
        ) && literal_number(env[name]) is None),
    ensures
        InnerStore::resolve(env) is Err,
        EnvVarsStore::resolve(env) is Err,
        sets_no_other_field(env, name) ==> EnvVarsStore::resolve(env) == Resolved::<
            EnvVarsStoreView,
        >::Err(rejection(ErrorKind::MalformedValue, name, env[name])),
{
    lemma_field_numbers();
    lemma_names_are_recognized();
    lemma_unset_fields(env);
}

} // verus!
