use lightdas::config::{ConfigError, EnvConfig};
use lightdas::supervisor::{select_trees, trees_to_index, Supervisor};

fn s(v: &[&str]) -> Vec<String> {
    v.iter().map(|x| x.to_string()).collect()
}

#[test]
fn startup_spawns_each_tree_once() {
    let mut sup = Supervisor::new();
    let plan = sup.reload(&s(&["a", "b", "a"]));
    assert_eq!(plan.spawn, s(&["a", "b"]));
    assert!(plan.abort.is_empty());
    assert_eq!(sup.running(), &s(&["a", "b"]));
}

#[test]
fn reload_aborts_removed_and_spawns_new() {
    let mut sup = Supervisor::new();
    sup.reload(&s(&["a", "b"]));
    let plan = sup.reload(&s(&["b", "c"]));
    assert_eq!(plan.abort, s(&["a"]));
    assert_eq!(plan.spawn, s(&["c"]));
    assert_eq!(sup.running(), &s(&["b", "c"]));
    let plan = sup.reload(&s(&["b", "c"]));
    assert!(plan.abort.is_empty());
    assert!(plan.spawn.is_empty());
}

const VALID: &str = "US517G5965aydkZ46HS38QLi7UQiSojurfbQfKCELFx";
const VALID2: &str = "cGfHiC6Kgg3FpFZvgwGcswsCRtp4aBP2fzuXRQPizuN";

#[test]
fn invalid_rows_are_skipped() {
    let rows = vec![
        Some(VALID.to_string()),
        None,
        Some("not-an-address".to_string()),
        Some("Ldp".to_string()),
        Some(VALID2.to_string()),
    ];
    assert_eq!(select_trees(&rows), s(&[VALID, VALID2]));
}

#[test]
fn no_trees_is_fatal() {
    assert_eq!(trees_to_index(&vec![]).unwrap_err(), ConfigError::NoTrees);
    assert_eq!(trees_to_index(&vec![None, Some("0".to_string())]).unwrap_err(), ConfigError::NoTrees);
    assert_eq!(trees_to_index(&vec![Some(VALID.to_string())]).unwrap(), s(&[VALID]));
}

#[test]
fn config_requires_every_setting() {
    let c = EnvConfig::from_settings(
        Some("wss://x".to_string()),
        Some("https://x".to_string()),
        Some("postgres://x".to_string()),
    )
    .ok()
    .unwrap();
    assert_eq!(c.get_websocket_url(), "wss://x");
    assert_eq!(c.get_rpc_url(), "https://x");
    assert_eq!(c.get_database_url(), "postgres://x");
    let e = EnvConfig::from_settings(None, Some("r".to_string()), Some("d".to_string()));
    assert!(matches!(e, Err(ConfigError::MissingSetting)));
    let e = EnvConfig::from_settings(Some("w".to_string()), Some("r".to_string()), None);
    assert!(matches!(e, Err(ConfigError::MissingSetting)));
}
