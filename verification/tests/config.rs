use exalta_auth::config::{Build, ConfigStore};
use exalta_auth::error::{AuthError, ErrorKind};

#[test]
fn fresh_store_has_the_defaults() {
    let params = ConfigStore::new().read();
    assert_eq!(params.platform(), "Unity");
    assert_eq!(params.build(), Build::Stable);
    assert_eq!(params.steamid(), "");
}

#[test]
fn each_setter_changes_its_parameter_only() {
    let mut store = ConfigStore::new();
    store.set_platform("Unity_steam");
    let params = store.read();
    assert_eq!(params.platform(), "Unity_steam");
    assert_eq!(params.build(), Build::Stable);
    assert_eq!(params.steamid(), "");
    store.set_steamid("76561198000000000");
    let params = store.read();
    assert_eq!(params.platform(), "Unity_steam");
    assert_eq!(params.build(), Build::Stable);
    assert_eq!(params.steamid(), "76561198000000000");
    store.set_build(Build::Testing);
    let params = store.read();
    assert_eq!(params.platform(), "Unity_steam");
    assert_eq!(params.build(), Build::Testing);
    assert_eq!(params.steamid(), "76561198000000000");
}

#[test]
fn build_stays_until_it_is_set_again() {
    let mut store = ConfigStore::new();
    store.set_build(Build::Testing);
    assert_eq!(store.read().build(), Build::Testing);
    store.set_steamid("a");
    store.set_platform("b");
    store.set_steamid("c");
    assert_eq!(store.read().build(), Build::Testing);
    assert_eq!(store.read().build(), Build::Testing);
    store.set_build(Build::Stable);
    assert_eq!(store.read().build(), Build::Stable);
}

#[test]
fn snapshot_does_not_follow_later_writes() {
    let mut store = ConfigStore::new();
    let before = store.read();
    store.set_build(Build::Testing);
    store.set_steamid("x");
    let after = store.read();
    assert_eq!(before.build(), Build::Stable);
    assert_eq!(before.steamid(), "");
    assert_eq!(after.build(), Build::Testing);
    assert_eq!(after.steamid(), "x");
    assert_eq!(before.clone(), before);
    assert_ne!(before, after);
}

#[test]
fn build_names_are_read_back() {
    assert_eq!(Build::Stable.name(), "stable");
    assert_eq!(Build::Testing.name(), "testing");
    assert_eq!(Build::parse("stable"), Some(Build::Stable));
    assert_eq!(Build::parse("testing"), Some(Build::Testing));
    assert_eq!(Build::parse(Build::Testing.name()), Some(Build::Testing));
    assert_eq!(Build::parse("Testing"), None);
    assert_eq!(Build::parse("nightly"), None);
    assert_eq!(Build::parse(""), None);
}

#[test]
fn named_build_is_set() {
    let mut store = ConfigStore::new();
    assert_eq!(store.set_build_named("testing"), Ok(()));
    assert_eq!(store.read().build(), Build::Testing);
    assert_eq!(store.set_build_named("stable"), Ok(()));
    assert_eq!(store.read().build(), Build::Stable);
}

#[test]
fn unknown_build_name_leaves_the_store_alone() {
    let mut store = ConfigStore::new();
    store.set_build(Build::Testing);
    store.set_steamid("id");
    let before = store.read();
    let error = store.set_build_named("nightly").unwrap_err();
    assert_eq!(error, AuthError::Unclassified("Unknown build channel.".to_string()));
    assert_eq!(error.kind(), ErrorKind::Unclassified);
    assert_eq!(store.read(), before);
}
