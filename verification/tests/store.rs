use std::time::Duration;
use store_env::error::{ConfigError, ErrorKind};
use store_env::field::{
    read_bool, read_history_slack, read_optional_u32, read_optional_u64, read_text, read_u64,
    read_usize, read_zero_to_one,
};
use store_env::snapshot::EnvSnapshot;
use store_env::store::{EnvVarsStore, InnerStore};

fn snapshot(vars: &[(&str, &str)]) -> EnvSnapshot {
    let mut env = EnvSnapshot::new();
    for (name, value) in vars {
        env.set(name, value);
    }
    env
}

fn load(vars: &[(&str, &str)]) -> Result<EnvVarsStore, ConfigError> {
    EnvVarsStore::from_snapshot(&snapshot(vars))
}

fn rejected(kind: ErrorKind, variable: &str, raw: &str) -> ConfigError {
    ConfigError { kind, variable: variable.to_string(), raw: Some(raw.to_string()) }
}

#[test]
fn snapshot_gives_the_last_setting() {
    let mut env = EnvSnapshot::new();
    assert_eq!(env.get("A"), None);
    env.set("A", "1");
    env.set("B", "2");
    assert_eq!(env.get("A"), Some("1"));
    assert_eq!(env.get("B"), Some("2"));
    env.set("A", "3");
    assert_eq!(env.get("A"), Some("3"));
    assert_eq!(env.get("a"), None);
    assert_eq!(env.get(""), None);
}

#[test]
fn unset_variables_resolve_to_the_declared_defaults() {
    let store = load(&[]).unwrap();
    assert_eq!(store.chain_head_watcher_timeout, Duration::from_secs(30));
    assert_eq!(store.query_stats_refresh_interval, Duration::from_secs(300));
    assert_eq!(store.schema_cache_ttl, Duration::from_secs(600));
    assert_eq!(store.extra_query_permits, 0);
    assert_eq!(store.large_notification_cleanup_interval, Duration::from_secs(300));
    assert_eq!(store.notification_broadcast_timeout, Duration::from_secs(60));
    assert_eq!(store.typea_batch_size, 150);
    assert_eq!(store.typed_children_set_size, 150);
    assert!(store.order_by_block_range);
    assert_eq!(store.remove_unused_interval, chrono::Duration::minutes(360));
    assert_eq!(store.remove_unused_interval.num_minutes(), 360);
    assert_eq!(store.remove_unused_interval.num_milliseconds(), 21_600_000);
    assert_eq!(store.recent_blocks_cache_capacity, 10);
    assert_eq!(store.connection_timeout, Duration::from_millis(5000));
    assert_eq!(store.connection_timeout.as_nanos(), 5_000_000_000);
    assert_eq!(store.connection_min_idle, None);
    assert_eq!(store.connection_idle_timeout, Duration::from_secs(600));
    assert_eq!(store.connection_idle_timeout.as_nanos(), 600_000_000_000);
    assert_eq!(store.write_queue_size, 5);
    assert_eq!(store.batch_target_duration, Duration::from_secs(180));
    assert_eq!(store.rebuild_threshold.as_str(), "0.5");
    assert_eq!(store.delete_threshold.as_str(), "0.05");
    assert_eq!(store.history_slack_factor.as_str(), "1.2");
    assert_eq!(store.write_batch_duration, Duration::from_secs(300));
    assert_eq!(store.write_batch_size, 10_000_000);
    assert!(!store.create_gin_indexes);
    assert!(!store.use_brin_for_all_query_types);
    assert!(!store.disable_block_cache_for_lookup);
    assert!(!store.last_rollup_from_poi);
    assert_eq!(store.insert_extra_cols, 0);
    assert_eq!(store.fdw_fetch_size, 10000);
}

#[test]
fn cache_ttl_defaults_to_twice_the_default_refresh_interval() {
    let store = load(&[]).unwrap();
    assert_eq!(store.schema_cache_ttl, Duration::from_secs(600));
}

#[test]
fn cache_ttl_follows_the_resolved_refresh_interval() {
    let store = load(&[("GRAPH_QUERY_STATS_REFRESH_INTERVAL", "100")]).unwrap();
    assert_eq!(store.query_stats_refresh_interval, Duration::from_secs(100));
    assert_eq!(store.schema_cache_ttl, Duration::from_secs(200));
}

#[test]
fn explicit_cache_ttl_overrides_the_derivation() {
    let store = load(&[
        ("GRAPH_SCHEMA_CACHE_TTL", "50"),
        ("GRAPH_QUERY_STATS_REFRESH_INTERVAL", "100"),
    ])
    .unwrap();
    assert_eq!(store.schema_cache_ttl, Duration::from_secs(50));
    assert_eq!(store.query_stats_refresh_interval, Duration::from_secs(100));
}

#[test]
fn write_batch_size_is_held_in_bytes() {
    let store = load(&[("GRAPH_STORE_WRITE_BATCH_SIZE", "10000")]).unwrap();
    assert_eq!(store.write_batch_size, 10_000_000);
    let store = load(&[("GRAPH_STORE_WRITE_BATCH_SIZE", "0")]).unwrap();
    assert_eq!(store.write_batch_size, 0);
    let store = load(&[("GRAPH_STORE_WRITE_BATCH_SIZE", "7")]).unwrap();
    assert_eq!(store.write_batch_size, 7_000);
}

#[test]
fn units_are_applied_to_explicit_values() {
    let store = load(&[
        ("GRAPH_CHAIN_HEAD_WATCHER_TIMEOUT", "7"),
        ("GRAPH_STORE_CONNECTION_TIMEOUT", "1500"),
        ("GRAPH_REMOVE_UNUSED_INTERVAL", "2"),
        ("GRAPH_STORE_CONNECTION_MIN_IDLE", "3"),
        ("ORDER_BY_BLOCK_RANGE", "false"),
        ("GRAPH_STORE_CREATE_GIN_INDEXES", "true"),
        ("GRAPH_STORE_HISTORY_REBUILD_THRESHOLD", "1"),
        ("GRAPH_STORE_HISTORY_DELETE_THRESHOLD", "0"),
        ("GRAPH_STORE_HISTORY_SLACK_FACTOR", "1.01"),
        ("GRAPH_EXTRA_QUERY_PERMITS", "12"),
    ])
    .unwrap();
    assert_eq!(store.chain_head_watcher_timeout, Duration::from_secs(7));
    assert_eq!(store.chain_head_watcher_timeout.as_millis(), 7000);
    assert_eq!(store.connection_timeout, Duration::from_millis(1500));
    assert_eq!(store.connection_timeout.as_millis(), 1500);
    assert_eq!(store.remove_unused_interval.num_seconds(), 120);
    assert_eq!(store.connection_min_idle, Some(3));
    assert!(!store.order_by_block_range);
    assert!(store.create_gin_indexes);
    assert_eq!(store.rebuild_threshold.as_str(), "1");
    assert_eq!(store.delete_threshold.as_str(), "0");
    assert_eq!(store.history_slack_factor.as_str(), "1.01");
    assert_eq!(store.extra_query_permits, 12);
}

const NUMERIC: [&str; 19] = [
    "GRAPH_CHAIN_HEAD_WATCHER_TIMEOUT",
    "GRAPH_QUERY_STATS_REFRESH_INTERVAL",
    "GRAPH_SCHEMA_CACHE_TTL",
    "GRAPH_EXTRA_QUERY_PERMITS",
    "LARGE_NOTIFICATION_CLEANUP_INTERVAL",
    "GRAPH_NOTIFICATION_BROADCAST_TIMEOUT",
    "TYPEA_BATCH_SIZE",
    "TYPED_CHILDREN_SET_SIZE",
    "GRAPH_REMOVE_UNUSED_INTERVAL",
    "GRAPH_STORE_RECENT_BLOCKS_CACHE_CAPACITY",
    "GRAPH_STORE_CONNECTION_TIMEOUT",
    "GRAPH_STORE_CONNECTION_MIN_IDLE",
    "GRAPH_STORE_CONNECTION_IDLE_TIMEOUT",
    "GRAPH_STORE_WRITE_QUEUE",
    "GRAPH_STORE_BATCH_TARGET_DURATION",
    "GRAPH_STORE_WRITE_BATCH_DURATION",
    "GRAPH_STORE_WRITE_BATCH_SIZE",
    "GRAPH_STORE_INSERT_EXTRA_COLS",
    "GRAPH_STORE_FDW_FETCH_SIZE",
];

const RATIOS: [&str; 3] = [
    "GRAPH_STORE_HISTORY_REBUILD_THRESHOLD",
    "GRAPH_STORE_HISTORY_DELETE_THRESHOLD",
    "GRAPH_STORE_HISTORY_SLACK_FACTOR",
];

const FLAGS: [&str; 5] = [
    "ORDER_BY_BLOCK_RANGE",
    "GRAPH_STORE_CREATE_GIN_INDEXES",
    "GRAPH_STORE_USE_BRIN_FOR_ALL_QUERY_TYPES",
    "GRAPH_STORE_DISABLE_BLOCK_CACHE_FOR_LOOKUP",
    "GRAPH_STORE_LAST_ROLLUP_FROM_POI",
];

#[test]
fn non_numeric_text_is_malformed_and_names_its_variable() {
    for name in NUMERIC.iter().chain(RATIOS.iter()) {
        for raw in ["abc", "", "12x", "-1e", " 5"] {
            let e = load(&[(name, raw)]).err().unwrap();
            assert_eq!(e, rejected(ErrorKind::MalformedValue, name, raw), "{name}={raw}");
        }
    }
}

#[test]
fn integers_that_do_not_fit_their_type_are_malformed() {
    for name in NUMERIC {
        let raw = "340282366920938463463374607431768211456";
        let e = load(&[(name, raw)]).err().unwrap();
        assert_eq!(e, rejected(ErrorKind::MalformedValue, name, raw), "{name}");
        let e = load(&[(name, "-1")]).err().unwrap();
        assert_eq!(e, rejected(ErrorKind::MalformedValue, name, "-1"), "{name}");
    }
    let e = load(&[("GRAPH_STORE_CONNECTION_MIN_IDLE", "4294967296")]).err().unwrap();
    assert_eq!(
        e,
        rejected(ErrorKind::MalformedValue, "GRAPH_STORE_CONNECTION_MIN_IDLE", "4294967296")
    );
}

#[test]
fn flags_other_than_true_and_false_are_malformed() {
    for name in FLAGS {
        for raw in ["abc", "", "yes", "TRUE"] {
            let e = load(&[(name, raw)]).err().unwrap();
            assert_eq!(e, rejected(ErrorKind::MalformedValue, name, raw), "{name}={raw}");
        }
        assert!(load(&[(name, "true")]).is_ok());
        assert!(load(&[(name, "false")]).is_ok());
    }
}

#[test]
fn ratios_out_of_range_are_rejected() {
    for name in &RATIOS[..2] {
        for raw in ["1.5", "-0.5", "inf", "nan", "1.0000000001"] {
            let e = load(&[(name, raw)]).err().unwrap();
            assert_eq!(e, rejected(ErrorKind::OutOfRange, name, raw), "{name}={raw}");
        }
    }
    for raw in ["1", "1.009", "0", "-3", "nan", "-inf"] {
        let e = load(&[("GRAPH_STORE_HISTORY_SLACK_FACTOR", raw)]).err().unwrap();
        assert_eq!(
            e,
            rejected(ErrorKind::OutOfRange, "GRAPH_STORE_HISTORY_SLACK_FACTOR", raw),
            "{raw}"
        );
    }
    let store = load(&[("GRAPH_STORE_HISTORY_SLACK_FACTOR", "inf")]).unwrap();
    assert_eq!(store.history_slack_factor.as_str(), "inf");
}

#[test]
fn connection_min_idle_is_unset_when_absent() {
    let store = load(&[]).unwrap();
    assert_eq!(store.connection_min_idle, None);
    let store = load(&[("GRAPH_STORE_CONNECTION_MIN_IDLE", "0")]).unwrap();
    assert_eq!(store.connection_min_idle, Some(0));
    let env = snapshot(&[]);
    assert_eq!(read_optional_u32(&env, "GRAPH_STORE_CONNECTION_MIN_IDLE"), Ok(None));
}

#[test]
fn the_first_rejected_field_is_reported() {
    let e = load(&[
        ("GRAPH_STORE_FDW_FETCH_SIZE", "x"),
        ("GRAPH_STORE_HISTORY_SLACK_FACTOR", "1"),
        ("TYPEA_BATCH_SIZE", "y"),
    ])
    .err()
    .unwrap();
    assert_eq!(e, rejected(ErrorKind::MalformedValue, "TYPEA_BATCH_SIZE", "y"));
    let e = load(&[
        ("GRAPH_STORE_FDW_FETCH_SIZE", "x"),
        ("GRAPH_STORE_HISTORY_SLACK_FACTOR", "1"),
    ])
    .err()
    .unwrap();
    assert_eq!(e, rejected(ErrorKind::OutOfRange, "GRAPH_STORE_HISTORY_SLACK_FACTOR", "1"));
}

#[test]
fn unrecognized_variables_are_ignored() {
    let store =
        load(&[("PATH", "/usr/bin"), ("GRAPH_UNKNOWN", "abc"), ("graph_schema_cache_ttl", "x")])
            .unwrap();
    assert_eq!(store.schema_cache_ttl, Duration::from_secs(600));
}

#[test]
fn loading_twice_gives_the_same_configuration() {
    let vars = [
        ("GRAPH_QUERY_STATS_REFRESH_INTERVAL", "42"),
        ("GRAPH_STORE_HISTORY_REBUILD_THRESHOLD", "0.75"),
        ("GRAPH_STORE_WRITE_BATCH_SIZE", "3"),
    ];
    let a = load(&vars).unwrap();
    let b = load(&vars).unwrap();
    assert_eq!(a.schema_cache_ttl, b.schema_cache_ttl);
    assert_eq!(a.schema_cache_ttl, Duration::from_secs(84));
    assert_eq!(a.rebuild_threshold.as_str(), b.rebuild_threshold.as_str());
    assert_eq!(a.write_batch_size, b.write_batch_size);
    assert_eq!(a.remove_unused_interval, b.remove_unused_interval);
    let bad = [("GRAPH_STORE_WRITE_QUEUE", "many")];
    assert_eq!(load(&bad).err(), load(&bad).err());
}

#[test]
fn what_cannot_be_derived_is_out_of_range() {
    let raw = "9223372036854775808";
    let e = load(&[("GRAPH_QUERY_STATS_REFRESH_INTERVAL", raw)]).err().unwrap();
    assert_eq!(e, rejected(ErrorKind::OutOfRange, "GRAPH_QUERY_STATS_REFRESH_INTERVAL", raw));
    let store = load(&[("GRAPH_QUERY_STATS_REFRESH_INTERVAL", "9223372036854775807")]).unwrap();
    assert_eq!(store.schema_cache_ttl, Duration::from_secs(u64::MAX - 1));
    let store =
        load(&[("GRAPH_QUERY_STATS_REFRESH_INTERVAL", raw), ("GRAPH_SCHEMA_CACHE_TTL", "1")])
            .unwrap();
    assert_eq!(store.schema_cache_ttl, Duration::from_secs(1));
    assert_eq!(store.query_stats_refresh_interval, Duration::from_secs(1 << 63));

    let e = load(&[("GRAPH_REMOVE_UNUSED_INTERVAL", "153722867280913")]).err().unwrap();
    assert_eq!(
        e,
        rejected(ErrorKind::OutOfRange, "GRAPH_REMOVE_UNUSED_INTERVAL", "153722867280913")
    );
    let store = load(&[("GRAPH_REMOVE_UNUSED_INTERVAL", "153722867280912")]).unwrap();
    assert_eq!(store.remove_unused_interval.num_minutes(), 153722867280912);

    let too_many = (usize::MAX / 1000 + 1).to_string();
    let e = load(&[("GRAPH_STORE_WRITE_BATCH_SIZE", &too_many)]).err().unwrap();
    assert_eq!(e, rejected(ErrorKind::OutOfRange, "GRAPH_STORE_WRITE_BATCH_SIZE", &too_many));
    let most = (usize::MAX / 1000).to_string();
    let store = load(&[("GRAPH_STORE_WRITE_BATCH_SIZE", &most)]).unwrap();
    assert_eq!(store.write_batch_size, usize::MAX / 1000 * 1000);
}

#[test]
fn derivation_comes_after_every_field() {
    let e = load(&[
        ("GRAPH_QUERY_STATS_REFRESH_INTERVAL", "9223372036854775808"),
        ("GRAPH_STORE_FDW_FETCH_SIZE", "x"),
    ])
    .err()
    .unwrap();
    assert_eq!(e, rejected(ErrorKind::MalformedValue, "GRAPH_STORE_FDW_FETCH_SIZE", "x"));
}

#[test]
fn a_field_without_text_is_missing() {
    let env = snapshot(&[("OTHER", "1")]);
    let missing =
        ConfigError { kind: ErrorKind::MissingRequired, variable: "NEEDED".to_string(), raw: None };
    assert_eq!(read_u64(&env, "NEEDED", None, u64::MAX), Err(missing.clone()));
    assert_eq!(read_usize(&env, "NEEDED", None, usize::MAX), Err(missing.clone()));
    assert_eq!(read_bool(&env, "NEEDED", None), Err(missing.clone()));
    assert_eq!(read_zero_to_one(&env, "NEEDED", None).err(), Some(missing));
    assert_eq!(read_u64(&env, "OTHER", None, u64::MAX), Ok(1));
    assert_eq!(read_u64(&env, "NEEDED", Some("8"), u64::MAX), Ok(8));
    assert_eq!(
        read_u64(&env, "OTHER", Some("8"), 0),
        Err(rejected(ErrorKind::OutOfRange, "OTHER", "1"))
    );
    assert_eq!(
        read_u64(&env, "NEEDED", Some("x"), u64::MAX),
        Err(rejected(ErrorKind::MalformedValue, "NEEDED", "x"))
    );
}

#[test]
fn the_configuration_shows_no_values() {
    let a = load(&[]).unwrap();
    let b = load(&[("GRAPH_STORE_CONNECTION_TIMEOUT", "12345")]).unwrap();
    assert_eq!(a.debug_string(), "env vars");
    assert_eq!(b.debug_string(), "env vars");
    assert_eq!(b.clone().debug_string(), "env vars");
}

#[test]
fn fields_convert_to_the_same_configuration_as_loading() {
    let env = snapshot(&[("GRAPH_STORE_CONNECTION_TIMEOUT", "250")]);
    let fields = InnerStore::init_from_snapshot(&env).unwrap();
    let again = fields.clone();
    let store: EnvVarsStore = fields.into();
    let other = EnvVarsStore::from(again);
    assert_eq!(store.connection_timeout, Duration::from_millis(250));
    assert_eq!(other.connection_timeout, store.connection_timeout);
    assert_eq!(other.clone().schema_cache_ttl, store.schema_cache_ttl);
}

#[test]
fn rejections_are_put_in_words() {
    let e = load(&[("TYPEA_BATCH_SIZE", "abc")]).err().unwrap();
    assert_eq!(e.message(), "invalid value for TYPEA_BATCH_SIZE: `abc` is malformed");
    assert_eq!(e.clone(), e);
    let e = load(&[("GRAPH_STORE_HISTORY_SLACK_FACTOR", "1.0")]).err().unwrap();
    assert_eq!(
        e.message(),
        "invalid value for GRAPH_STORE_HISTORY_SLACK_FACTOR: `1.0` is out of range"
    );
    let e = read_u64(&snapshot(&[]), "NEEDED", None, 5).err().unwrap();
    assert_eq!(e.message(), "NEEDED is not set");
    assert_eq!(ConfigError::missing("NEEDED"), e);
    assert_eq!(
        ConfigError::rejected(ErrorKind::OutOfRange, "A", "b"),
        rejected(ErrorKind::OutOfRange, "A", "b")
    );
}

#[test]
fn fields_are_read_one_at_a_time() {
    let env = snapshot(&[("COUNT", "12"), ("RATIO", "0.3"), ("FACTOR", "2.5"), ("FLAG", "true")]);
    assert_eq!(read_usize(&env, "COUNT", Some("1"), 12), Ok(12));
    assert_eq!(
        read_usize(&env, "COUNT", Some("1"), 11),
        Err(rejected(ErrorKind::OutOfRange, "COUNT", "12"))
    );
    assert_eq!(read_usize(&env, "ABSENT", Some("1"), 11), Ok(1));
    assert_eq!(
        read_usize(&env, "ABSENT", Some("12"), 11),
        Err(rejected(ErrorKind::OutOfRange, "ABSENT", "12"))
    );
    assert_eq!(read_optional_u64(&env, "COUNT"), Ok(Some(12)));
    assert_eq!(read_optional_u64(&env, "ABSENT"), Ok(None));
    assert_eq!(
        read_optional_u64(&env, "RATIO"),
        Err(rejected(ErrorKind::MalformedValue, "RATIO", "0.3"))
    );
    assert_eq!(read_optional_u32(&env, "COUNT"), Ok(Some(12)));
    assert_eq!(read_bool(&env, "FLAG", Some("false")), Ok(true));
    assert_eq!(read_bool(&env, "ABSENT", Some("false")), Ok(false));
    assert_eq!(read_zero_to_one(&env, "RATIO", None).unwrap().as_str(), "0.3");
    assert_eq!(read_zero_to_one(&env, "ABSENT", Some("0.5")).unwrap().as_str(), "0.5");
    assert_eq!(
        read_zero_to_one(&env, "FACTOR", Some("0.5")).err(),
        Some(rejected(ErrorKind::OutOfRange, "FACTOR", "2.5"))
    );
    assert_eq!(read_history_slack(&env, "FACTOR", None).unwrap().as_str(), "2.5");
    assert_eq!(
        read_history_slack(&env, "RATIO", Some("1.2")).err(),
        Some(rejected(ErrorKind::OutOfRange, "RATIO", "0.3"))
    );
    assert_eq!(
        read_history_slack(&env, "FLAG", Some("1.2")).err(),
        Some(rejected(ErrorKind::MalformedValue, "FLAG", "true"))
    );
    assert_eq!(read_text(&env, "FLAG", Some("x")), Some("true"));
    assert_eq!(read_text(&env, "ABSENT", Some("x")), Some("x"));
    assert_eq!(read_text(&env, "ABSENT", None), None);
}
