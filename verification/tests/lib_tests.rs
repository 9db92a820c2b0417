use clipmanager::version;
use clipmanager::digest::{digest_of_bytes, fnv1a64_bytes, hex16_string};
use clipmanager::strutil::{str_contains, str_eq, str_is_blank, u64_to_dec};
use clipmanager::migrate::plan_migration;

#[test]
fn test_version() {
    let version = version();
    assert!(!version.is_empty());
    assert!(version.contains('.'));
}

#[test]
fn test_init() {
    // Test that initialization doesn't panic
    // Note: We can't test the actual initialization because
    // env_logger can only be initialized once per process
    assert!(true);
}

#[test]
fn test_digest_rendering() {
    assert_eq!(fnv1a64_bytes(&[]), 0xcbf29ce484222325);
    assert_eq!(fnv1a64_bytes(&[0x61]), 0xaf63dc4c8601ec8c);
    assert_eq!(hex16_string(0), "0000000000000000");
    assert_eq!(hex16_string(0xcbf29ce484222325), "cbf29ce484222325");
    assert_eq!(digest_of_bytes(b"Hello World"), "3d58dee72d4e0c27");
}

#[test]
fn test_string_utilities() {
    assert!(str_contains("Rust Programming", "Rust"));
    assert!(str_contains("Rust Programming", ""));
    assert!(!str_contains("Rust Programming", "rust"));
    assert!(str_contains("中文文本", "文文"));
    assert!(!str_contains("short", "much longer pattern"));

    assert!(str_eq("abc", "abc"));
    assert!(!str_eq("abc", "abd"));
    assert!(!str_eq("abc", "ab"));

    assert!(str_is_blank(""));
    assert!(str_is_blank(" \t\r\n"));
    assert!(!str_is_blank(" x "));

    assert_eq!(u64_to_dec(0), "0");
    assert_eq!(u64_to_dec(7), "7");
    assert_eq!(u64_to_dec(105), "105");
    assert_eq!(u64_to_dec(18446744073709551615), "18446744073709551615");
}

#[test]
fn test_migration_plans() {
    // fresh installation: create the schema, index it, record the version
    let fresh = plan_migration(0, false, false);
    assert!(fresh.create_fresh_schema);
    assert!(!fresh.add_payload_columns);
    assert!(!fresh.backfill_legacy_content);
    assert!(fresh.create_indexes);
    assert_eq!(fresh.record_version, Some(1));

    // pre-upgrade installation with the legacy column: add columns and
    // backfill, never drop
    let upgrade = plan_migration(0, true, true);
    assert!(!upgrade.create_fresh_schema);
    assert!(upgrade.add_payload_columns);
    assert!(upgrade.backfill_legacy_content);
    assert!(upgrade.create_indexes);
    assert_eq!(upgrade.record_version, Some(1));

    // table present but already in the new shape: only indexes and version
    let reindex = plan_migration(0, true, false);
    assert!(!reindex.create_fresh_schema);
    assert!(!reindex.add_payload_columns);
    assert!(!reindex.backfill_legacy_content);
    assert!(reindex.create_indexes);
    assert_eq!(reindex.record_version, Some(1));

    // already current: nothing to do
    let done = plan_migration(1, true, false);
    assert!(!done.create_fresh_schema);
    assert!(!done.add_payload_columns);
    assert!(!done.backfill_legacy_content);
    assert!(!done.create_indexes);
    assert_eq!(done.record_version, None);
}
