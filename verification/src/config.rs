//! The tool's saved settings and where they are kept.

use vstd::prelude::*;
use crate::scaffold::texts;
use std::path::PathBuf;

verus! {

/// A path of the file system, carried through unread.
#[verifier::external_type_specification]
#[verifier::external_body]
pub struct ExPathBuf(PathBuf);

/// The saved settings.
#[derive(Debug, Clone)]
pub struct Config {
    /// The network that commands use unless told otherwise.
    pub network: String,
    /// The wallets that have been created or imported.
    pub wallets: Vec<WalletEntry>,
}

/// A saved wallet.
#[derive(Debug, Clone)]
pub struct WalletEntry {
    pub name: String,
    pub public_key: String,
    pub secret_key: Option<String>,
    pub network: String,
    pub created_at: String,
    pub funded: bool,
}

/// The network of fresh settings.
pub const DEFAULT_NETWORK: &'static str = "testnet";

impl Default for Config {
    /// Fresh settings: the test network and no wallets.
    fn default() -> (res: Self)
        ensures
            res.network@ == DEFAULT_NETWORK@,
            res.wallets@.len() == 0,
    {
        Config { network: String::from_str(DEFAULT_NETWORK), wallets: Vec::new() }
    }
}

/// The directory of the settings, relative to the home directory.
pub const CONFIG_DIR_NAME: &'static str = ".starforge";

/// The settings file, relative to the settings directory.
pub const CONFIG_FILE_NAME: &'static str = "config.toml";

/// Where a settings path lies: the home directory, and the components to
/// join onto it one after the other (`home.join(c1).join(c2)`...).
pub struct SettingsLocation {
    pub home: PathBuf,
    pub components: Vec<&'static str>,
}

/// The components of the settings directory under the home directory.
pub open spec fn config_dir_components() -> Seq<Seq<char>> {
    seq![CONFIG_DIR_NAME@]
}

/// The components of the settings file under the home directory.
pub open spec fn config_path_components() -> Seq<Seq<char>> {
    config_dir_components().push(CONFIG_FILE_NAME@)
}

/// The settings directory under the home directory `home`.
pub fn config_dir_in(home: PathBuf) -> (res: SettingsLocation)
    ensures
        res.home == home,
        texts(res.components@) == config_dir_components(),
{
    let mut components: Vec<&'static str> = Vec::new();
    components.push(CONFIG_DIR_NAME);
    assert(texts(components@) =~= config_dir_components());
    SettingsLocation { home, components }
}

/// The settings file under the home directory `home`.
pub fn config_path_in(home: PathBuf) -> (res: SettingsLocation)
    ensures
        res.home == home,
        texts(res.components@) == config_path_components(),
{
    let mut loc = config_dir_in(home);
    loc.components.push(CONFIG_FILE_NAME);
    assert(texts(loc.components@) =~= config_path_components());
    loc
}

/// Calls `dirs::home_dir`, which reads `$HOME` (or the user database, or
/// the known-folder API on Windows) and so depends on the environment.
/// Nothing is stated of the result.
#[verifier::external_body]
fn home_dir() -> (res: Option<PathBuf>) {
    dirs::home_dir()
}

/// The settings directory of the current user, when the home directory
/// lookup gives one: `.starforge` under that home directory.
pub fn config_dir() -> (res: Option<SettingsLocation>)
    ensures
        res matches Some(l) ==> texts(l.components@) == config_dir_components(),
{
    match home_dir() {
        Some(home) => Some(config_dir_in(home)),
        None => None,
    }
}

/// The settings file of the current user, when the home directory lookup
/// gives one: `config.toml` in the settings directory.
pub fn config_path() -> (res: Option<SettingsLocation>)
    ensures
        res matches Some(l) ==> texts(l.components@) == config_path_components(),
{
    match config_dir() {
        Some(dir) => {
            let mut loc = dir;
            loc.components.push(CONFIG_FILE_NAME);
            assert(texts(loc.components@) =~= config_path_components());
            Some(loc)
        },
        None => None,
    }
}

/// The settings file is `config.toml` directly inside the settings
/// directory, which is `.starforge` directly inside the home directory.
pub proof fn lemma_config_file_in_config_dir()
    ensures
        config_dir_components() == seq![CONFIG_DIR_NAME@],
        config_path_components() == config_dir_components() + seq![CONFIG_FILE_NAME@],
{
    assert(config_path_components() =~= config_dir_components() + seq![CONFIG_FILE_NAME@]);
}

} // verus!
