use std::path::PathBuf;
use starforge::config::{
    config_dir, config_dir_in, config_path, config_path_in, Config, SettingsLocation, WalletEntry,
};

#[test]
fn default_config() {
    let c = Config::default();
    assert_eq!(c.network, "testnet");
    assert!(c.wallets.is_empty());
}

fn path_of(loc: SettingsLocation) -> PathBuf {
    let mut path = loc.home;
    for c in loc.components {
        path = path.join(c);
    }
    path
}

#[test]
fn config_locations_under_home() {
    let dir = config_dir_in(PathBuf::from("/home/ann"));
    assert_eq!(dir.home, PathBuf::from("/home/ann"));
    assert_eq!(dir.components, vec![".starforge"]);
    let file = config_path_in(PathBuf::from("/home/ann"));
    assert_eq!(file.components, vec![".starforge", "config.toml"]);
    assert_eq!(path_of(file), PathBuf::from("/home/ann/.starforge/config.toml"));
    assert_eq!(
        path_of(config_path_in(PathBuf::from("/home/ann/"))),
        PathBuf::from("/home/ann/.starforge/config.toml")
    );
}

#[test]
fn config_path_is_inside_config_dir() {
    match (config_dir(), config_path()) {
        (Some(d), Some(p)) => {
            assert_eq!(p.home, d.home);
            assert_eq!(path_of(p), path_of(d).join("config.toml"));
        }
        (None, None) => {}
        _ => panic!("both or neither expected"),
    }
}

#[test]
fn wallet_entries_are_plain_values() {
    let w = WalletEntry {
        name: "main".to_string(),
        public_key: "GABC".to_string(),
        secret_key: None,
        network: "testnet".to_string(),
        created_at: "2024-01-01".to_string(),
        funded: false,
    };
    let mut c = Config::default();
    c.wallets.push(w.clone());
    assert_eq!(c.wallets.len(), 1);
    assert_eq!(c.wallets[0].name, "main");
}
