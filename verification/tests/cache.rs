use madamiru::resource::cache::{Cache, DAY_NANOS};

#[test]
fn release_checks_wait_a_day() {
    let cache = Cache { checked: 1_000, ..Cache::default() };
    assert!(!cache.should_check_app_update(1_000 + DAY_NANOS - 1));
    assert!(cache.should_check_app_update(1_000 + DAY_NANOS));
    assert!(!cache.should_check_app_update(0));
}

#[test]
fn migrating_notes_the_running_version() {
    let mut cache = Cache::default();
    assert!(cache.migrate_config((1, 2, 3)));
    assert_eq!(Some((1, 2, 3)), cache.version);
    assert!(!cache.migrate_config((1, 2, 3)));
    assert!(cache.migrate_config((1, 3, 0)));
}
