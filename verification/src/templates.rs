//! The files that a new project starts with. Each file is the
//! concatenation of fixed fragments (the constants below) and of the
//! names derived from the project name.

use vstd::prelude::*;
use crate::text::{pascal_case, snake, to_pascal, snake_name, same_text};

verus! {

// ── Cargo files ─────────────────────────────────────────────────────────

/// Start of a contract's `Cargo.toml`, up to the package name.
pub const CARGO_HEAD: &'static str = "[package]\nname = \"";

/// The lines after the package name, before the optional fields.
pub const CARGO_VERSION: &'static str = "\"\nversion = \"0.1.0\"\nedition = \"2021\"\n";

/// Opening of the optional `authors` line.
pub const CARGO_AUTHORS_OPEN: &'static str = "authors = [\"";

/// Closing of the optional `authors` line.
pub const CARGO_AUTHORS_CLOSE: &'static str = "\"]\n";

/// Opening of the optional `license` line.
pub const CARGO_LICENSE_OPEN: &'static str = "license = \"";

/// Closing of the optional `license` line.
pub const CARGO_LICENSE_CLOSE: &'static str = "\"\n";

/// The license name that asks for no `license` line.
pub const NO_LICENSE: &'static str = "None";

/// The rest of a contract's `Cargo.toml`.
pub const CARGO_TAIL: &'static str = r#"
[lib]
crate-type = ["cdylib"]

[dependencies]
soroban-sdk = "21.0.0"

[dev-dependencies]
soroban-sdk = { version = "21.0.0", features = ["testutils"] }

[profile.release]
opt-level = "z"
overflow-checks = true
debug = 0
strip = "symbols"
debug-assertions = false
panic = "abort"
codegen-units = 1
lto = true
"#;

/// `.cargo/config.toml` of a contract project.
pub const CARGO_CONFIG: &'static str = r#"[target.wasm32-unknown-unknown]
rustflags = ["-C", "target-feature=+multivalue,+sign-ext"]
"#;

/// The `authors` line of `Cargo.toml`: none for an empty author.
pub open spec fn author_line(author: Seq<char>) -> Seq<char> {
    if author.len() == 0 {
        Seq::empty()
    } else {
        CARGO_AUTHORS_OPEN@ + author + CARGO_AUTHORS_CLOSE@
    }
}

/// The `license` line of `Cargo.toml`: none for `None` or an empty license.
pub open spec fn license_line(license: Seq<char>) -> Seq<char> {
    if license == NO_LICENSE@ || license.len() == 0 {
        Seq::empty()
    } else {
        CARGO_LICENSE_OPEN@ + license + CARGO_LICENSE_CLOSE@
    }
}

/// The `Cargo.toml` of a contract package.
pub open spec fn cargo_toml_text(name: Seq<char>, license: Seq<char>, author: Seq<char>) -> Seq<
    char,
> {
    CARGO_HEAD@ + name + CARGO_VERSION@ + author_line(author) + license_line(license)
        + CARGO_TAIL@
}

/// Writes the `Cargo.toml` of a contract package.
pub fn cargo_toml(name: &str, license: &str, author: &str) -> (res: String)
    ensures
        res@ == cargo_toml_text(name@, license@, author@),
{
    let mut res = String::from_str(CARGO_HEAD);
    res.append(name);
    res.append(CARGO_VERSION);
    let ghost head = res@;
    if author.unicode_len() != 0 {
        res.append(CARGO_AUTHORS_OPEN);
        res.append(author);
        res.append(CARGO_AUTHORS_CLOSE);
    }
    assert(res@ =~= head + author_line(author@));
    let ghost with_author = res@;
    if !(same_text(license, NO_LICENSE) || license.unicode_len() == 0) {
        res.append(CARGO_LICENSE_OPEN);
        res.append(license);
        res.append(CARGO_LICENSE_CLOSE);
    }
    assert(res@ =~= with_author + license_line(license@));
    res.append(CARGO_TAIL);
    res
}

/// The build settings written to `.cargo/config.toml`.
pub fn cargo_config() -> (res: &'static str)
    ensures
        res@ == CARGO_CONFIG@,
{
    CARGO_CONFIG
}

// ── Contract templates ──────────────────────────────────────────────────

/// First line and imports of the hello-world contract.
pub const HELLO_HEAD: &'static str =
    "#![no_std]\nuse soroban_sdk::{contract, contractimpl, symbol_short, vec, Env, Symbol, Vec};";

/// The import that a contract with storage adds.
pub const STORAGE_IMPORT: &'static str = "\nuse soroban_sdk::storage::Storage;";

/// The storage kind whose values live until removed.
pub const PERSISTENT: &'static str = "persistent";

/// The storage kind whose values expire.
pub const TEMPORARY: &'static str = "temporary";

/// From the end of the imports to the contract's type name.
pub const CONTRACT_STRUCT: &'static str = "\n\n#[contract]\npub struct ";

/// Between the contract's type name in its declaration and in its `impl`.
pub const CONTRACT_IMPL: &'static str = ";\n\n#[contractimpl]\nimpl ";

/// The `hello` entry point.
pub const HELLO_BODY: &'static str = r#" {
    pub fn hello(env: Env, to: Symbol) -> Vec<Symbol> {
        vec![&env, symbol_short!("Hello"), to]
    }"#;

/// Accessors over persistent storage.
pub const PERSISTENT_METHODS: &'static str = r#"
    pub fn set_value(env: Env, key: Symbol, value: u64) {
        env.storage().persistent().set(&key, &value);
    }

    pub fn get_value(env: Env, key: Symbol) -> Option<u64> {
        env.storage().persistent().get(&key)
    }"#;

/// Accessors over temporary storage.
pub const TEMPORARY_METHODS: &'static str = r#"
    pub fn set_value(env: Env, key: Symbol, value: u64) {
        env.storage().temporary().set(&key, &value);
    }

    pub fn get_value(env: Env, key: Symbol) -> Option<u64> {
        env.storage().temporary().get(&key)
    }"#;

/// End of the `impl` block.
pub const IMPL_CLOSE: &'static str = "\n}";

/// Test module, up to the first use of the contract's type name.
pub const TEST_HEAD: &'static str = r#"

#[cfg(test)]
mod test {
    use super::*;
    use soroban_sdk::{Env, symbol_short};

    #[test]
    fn test_hello() {
        let env = Env::default();
        let id  = env.register_contract(None, "#;

/// Test module, between the two uses of the contract's type name.
pub const TEST_MID: &'static str = ");\n        let client = ";

/// Test module, after the second use of the contract's type name.
pub const TEST_TAIL: &'static str = r#"Client::new(&env, &id);
        let words = client.hello(&symbol_short!("Dev"));
        assert_eq!(words, vec![&env, symbol_short!("Hello"), symbol_short!("Dev")]);
    }
}"#;

/// Final newline of a generated source file.
pub const NEWLINE: &'static str = "\n";

/// The storage import for a storage kind.
pub open spec fn storage_import(storage: Seq<char>) -> Seq<char> {
    if storage == PERSISTENT@ || storage == TEMPORARY@ {
        STORAGE_IMPORT@
    } else {
        Seq::empty()
    }
}

/// The storage accessors for a storage kind.
pub open spec fn storage_methods(storage: Seq<char>) -> Seq<char> {
    if storage == PERSISTENT@ {
        PERSISTENT_METHODS@
    } else if storage == TEMPORARY@ {
        TEMPORARY_METHODS@
    } else {
        Seq::empty()
    }
}

/// The test module for the contract type `pascal`, if asked for.
pub open spec fn test_module(pascal: Seq<char>, include_tests: bool) -> Seq<char> {
    if include_tests {
        TEST_HEAD@ + pascal + TEST_MID@ + pascal + TEST_TAIL@
    } else {
        Seq::empty()
    }
}

/// Declaration of the contract type `pascal` followed by the opening of
/// its `impl` block.
pub open spec fn contract_decl(pascal: Seq<char>) -> Seq<char> {
    CONTRACT_STRUCT@ + pascal + CONTRACT_IMPL@ + pascal
}

/// The hello-world contract of a project.
pub open spec fn hello_world_text(name: Seq<char>, storage: Seq<char>, include_tests: bool) -> Seq<
    char,
> {
    let pascal = pascal_case(name);
    HELLO_HEAD@ + storage_import(storage) + contract_decl(pascal) + HELLO_BODY@ + storage_methods(
        storage,
    ) + IMPL_CLOSE@ + test_module(pascal, include_tests) + NEWLINE@
}

/// Appends the declaration of the contract type and the opening of its
/// `impl` block.
fn append_contract_decl(res: &mut String, pascal: &str)
    ensures
        final(res)@ == old(res)@ + contract_decl(pascal@),
{
    res.append(CONTRACT_STRUCT);
    res.append(pascal);
    res.append(CONTRACT_IMPL);
    res.append(pascal);
    assert(final(res)@ =~= old(res)@ + contract_decl(pascal@));
}

/// Writes the hello-world contract, with accessors for `persistent` or
/// `temporary` storage and with a test module when asked for.
pub fn hello_world_template(name: &str, storage: &str, include_tests: bool) -> (res: String)
    ensures
        res@ == hello_world_text(name@, storage@, include_tests),
{
    let pascal = to_pascal(name);
    let is_persistent = same_text(storage, PERSISTENT);
    let is_temporary = same_text(storage, TEMPORARY);
    let mut res = String::from_str(HELLO_HEAD);
    if is_persistent || is_temporary {
        res.append(STORAGE_IMPORT);
    }
    let ghost a = res@;
    assert(a =~= HELLO_HEAD@ + storage_import(storage@));
    append_contract_decl(&mut res, pascal.as_str());
    res.append(HELLO_BODY);
    let ghost b = res@;
    if is_persistent {
        res.append(PERSISTENT_METHODS);
    } else if is_temporary {
        res.append(TEMPORARY_METHODS);
    }
    assert(res@ =~= b + storage_methods(storage@));
    res.append(IMPL_CLOSE);
    let ghost c = res@;
    if include_tests {
        res.append(TEST_HEAD);
        res.append(pascal.as_str());
        res.append(TEST_MID);
        res.append(pascal.as_str());
        res.append(TEST_TAIL);
    }
    assert(res@ =~= c + test_module(pascal@, include_tests));
    res.append(NEWLINE);
    assert(res@ =~= hello_world_text(name@, storage@, include_tests));
    res
}

/// First line and imports of the token and NFT contracts.
pub const ADDRESS_STRING_HEAD: &'static str =
    "#![no_std]\nuse soroban_sdk::{contract, contractimpl, Address, Env, String};";

/// Entry points of the token contract.
pub const TOKEN_BODY: &'static str = r#" {
    pub fn initialize(env: Env, admin: Address, decimal: u32, name: String, symbol: String) {
        admin.require_auth();
        // TODO: store token metadata in env.storage()
        let _ = (decimal, name, symbol);
    }

    pub fn mint(env: Env, to: Address, amount: i128) {
        // TODO: implement minting logic
        let _ = (to, amount);
    }

    pub fn balance(_env: Env, _id: Address) -> i128 {
        // TODO: return balance from storage
        0
    }

    pub fn transfer(env: Env, from: Address, to: Address, amount: i128) {
        from.require_auth();
        // TODO: implement transfer
        let _ = (to, amount);
    }
}
"#;

/// First line and imports of the voting contract.
pub const VOTING_HEAD: &'static str =
    "#![no_std]\nuse soroban_sdk::{contract, contractimpl, Address, Env, Symbol};";

/// Entry points of the voting contract.
pub const VOTING_BODY: &'static str = r#" {
    pub fn create_proposal(env: Env, creator: Address, title: Symbol) -> u32 {
        creator.require_auth();
        // TODO: store proposal, return ID
        let _ = title;
        0
    }

    pub fn vote(env: Env, voter: Address, proposal_id: u32, approve: bool) {
        voter.require_auth();
        // TODO: record vote in storage
        let _ = (proposal_id, approve);
    }

    pub fn results(_env: Env, proposal_id: u32) -> (u32, u32) {
        // TODO: return (yes_votes, no_votes)
        let _ = proposal_id;
        (0, 0)
    }
}
"#;

/// Entry points of the NFT contract.
pub const NFT_BODY: &'static str = r#" {
    pub fn mint(env: Env, to: Address, token_id: u64, uri: String) {
        // TODO: mint NFT and store metadata
        let _ = (to, token_id, uri);
    }

    pub fn owner_of(_env: Env, token_id: u64) -> Address {
        // TODO: return owner from storage
        let _ = token_id;
        panic!("not implemented")
    }

    pub fn transfer(env: Env, from: Address, to: Address, token_id: u64) {
        from.require_auth();
        // TODO: transfer ownership
        let _ = (to, token_id);
    }
}
"#;

/// A contract made of `head`, the declaration of the project's type and
/// `body`.
pub open spec fn contract_text(head: Seq<char>, name: Seq<char>, body: Seq<char>) -> Seq<char> {
    head + contract_decl(pascal_case(name)) + body
}

/// Writes a contract made of `head`, the declaration of the project's type
/// and `body`.
fn contract_source(head: &str, name: &str, body: &str) -> (res: String)
    ensures
        res@ == contract_text(head@, name@, body@),
{
    let pascal = to_pascal(name);
    let mut res = String::from_str(head);
    append_contract_decl(&mut res, pascal.as_str());
    res.append(body);
    res
}

/// The token contract of a project.
pub open spec fn token_text(name: Seq<char>) -> Seq<char> {
    contract_text(ADDRESS_STRING_HEAD@, name, TOKEN_BODY@)
}

/// Writes the token contract.
pub fn token_template(name: &str) -> (res: String)
    ensures
        res@ == token_text(name@),
{
    contract_source(ADDRESS_STRING_HEAD, name, TOKEN_BODY)
}

/// The voting contract of a project.
pub open spec fn voting_text(name: Seq<char>) -> Seq<char> {
    contract_text(VOTING_HEAD@, name, VOTING_BODY@)
}

/// Writes the voting contract.
pub fn voting_template(name: &str) -> (res: String)
    ensures
        res@ == voting_text(name@),
{
    contract_source(VOTING_HEAD, name, VOTING_BODY)
}

/// The NFT contract of a project.
pub open spec fn nft_text(name: Seq<char>) -> Seq<char> {
    contract_text(ADDRESS_STRING_HEAD@, name, NFT_BODY@)
}

/// Writes the NFT contract.
pub fn nft_template(name: &str) -> (res: String)
    ensures
        res@ == nft_text(name@),
{
    contract_source(ADDRESS_STRING_HEAD, name, NFT_BODY)
}

// ── README of a contract ────────────────────────────────────────────────

/// Title marker of a README.
pub const README_HEAD: &'static str = "# ";

/// A contract README from its title to the crate name in the deploy command.
pub const README_BODY: &'static str = r#"

A Soroban smart contract scaffolded with [starforge](https://github.com/YOUR_USERNAME/starforge).

## Build

```bash
stellar contract build
```

## Test

```bash
cargo test
```

## Deploy

```bash
starforge deploy \
  --wasm target/wasm32-unknown-unknown/release/"#;

/// A contract README from the crate name to the template name.
pub const README_TEMPLATE: &'static str = r#".wasm \
  --network testnet
```

Template: `"#;

/// End of a contract README.
pub const README_TAIL: &'static str = "`\n";

/// The README of a contract project made from `template`.
pub open spec fn readme_text(name: Seq<char>, template: Seq<char>) -> Seq<char> {
    README_HEAD@ + name + README_BODY@ + snake(name) + README_TEMPLATE@ + template + README_TAIL@
}

/// Writes the README of a contract project.
pub fn readme(name: &str, template: &str) -> (res: String)
    ensures
        res@ == readme_text(name@, template@),
{
    let snake = snake_name(name);
    let mut res = String::from_str(README_HEAD);
    res.append(name);
    res.append(README_BODY);
    res.append(snake.as_str());
    res.append(README_TEMPLATE);
    res.append(template);
    res.append(README_TAIL);
    res
}

// ── dApp files ──────────────────────────────────────────────────────────

/// `package.json` up to the package name.
pub const DAPP_PACKAGE_HEAD: &'static str = "{\n  \"name\": \"";

/// `package.json` after the package name.
pub const DAPP_PACKAGE_TAIL: &'static str = r#"",
  "version": "0.1.0",
  "type": "module",
  "scripts": {
    "dev": "vite",
    "build": "vite build",
    "preview": "vite preview"
  },
  "dependencies": {
    "@stellar/stellar-sdk": "^12.3.0",
    "react": "^18.3.0",
    "react-dom": "^18.3.0"
  },
  "devDependencies": {
    "@vitejs/plugin-react": "^4.3.1",
    "vite": "^5.4.0"
  }
}
"#;

/// The `package.json` of a dApp.
pub open spec fn dapp_package_text(name: Seq<char>) -> Seq<char> {
    DAPP_PACKAGE_HEAD@ + name + DAPP_PACKAGE_TAIL@
}

/// Writes the `package.json` of a dApp.
pub fn dapp_package(name: &str) -> (res: String)
    ensures
        res@ == dapp_package_text(name@),
{
    let mut res = String::from_str(DAPP_PACKAGE_HEAD);
    res.append(name);
    res.append(DAPP_PACKAGE_TAIL);
    res
}

/// `index.html` up to the page title.
pub const DAPP_INDEX_HEAD: &'static str = r#"<!DOCTYPE html>
<html lang="en">
  <head>
    <meta charset="UTF-8" />
    <meta name="viewport" content="width=device-width, initial-scale=1.0" />
    <title>"#;

/// `index.html` after the page title.
pub const DAPP_INDEX_TAIL: &'static str = r#"</title>
  </head>
  <body>
    <div id="root"></div>
    <script type="module" src="/src/main.jsx"></script>
  </body>
</html>
"#;

/// The `index.html` of a dApp.
pub open spec fn dapp_index_text(name: Seq<char>) -> Seq<char> {
    DAPP_INDEX_HEAD@ + name + DAPP_INDEX_TAIL@
}

/// Writes the `index.html` of a dApp.
pub fn dapp_index(name: &str) -> (res: String)
    ensures
        res@ == dapp_index_text(name@),
{
    let mut res = String::from_str(DAPP_INDEX_HEAD);
    res.append(name);
    res.append(DAPP_INDEX_TAIL);
    res
}

/// `src/main.jsx` of a dApp.
pub const DAPP_MAIN: &'static str = r#"import React from 'react'
import ReactDOM from 'react-dom/client'
import App from './App.jsx'

ReactDOM.createRoot(document.getElementById('root')).render(
  <React.StrictMode><App /></React.StrictMode>
)
"#;

/// The entry module written to `src/main.jsx`.
pub fn dapp_main() -> (res: &'static str)
    ensures
        res@ == DAPP_MAIN@,
{
    DAPP_MAIN
}

/// `src/App.jsx` up to the heading text.
pub const DAPP_APP_HEAD: &'static str = r#"import React from 'react'

export default function App() {
  return (
    <div style={{ fontFamily: 'monospace', padding: '2rem' }}>
      <h1>⚡ "#;

/// `src/App.jsx` after the heading text.
pub const DAPP_APP_TAIL: &'static str = r#"</h1>
      <p>Your Stellar dApp is ready. Start building!</p>
    </div>
  )
}
"#;

/// The `src/App.jsx` of a dApp.
pub open spec fn dapp_app_text(name: Seq<char>) -> Seq<char> {
    DAPP_APP_HEAD@ + name + DAPP_APP_TAIL@
}

/// Writes the `src/App.jsx` of a dApp.
pub fn dapp_app(name: &str) -> (res: String)
    ensures
        res@ == dapp_app_text(name@),
{
    let mut res = String::from_str(DAPP_APP_HEAD);
    res.append(name);
    res.append(DAPP_APP_TAIL);
    res
}

/// Title marker of a dApp README.
pub const DAPP_README_HEAD: &'static str = "# ";

/// A dApp README after its title.
pub const DAPP_README_BODY: &'static str = r#"

A Stellar dApp scaffolded with [starforge](https://github.com/YOUR_USERNAME/starforge).

## Getting Started

```bash
npm install
npm run dev
```
"#;

/// The README of a dApp.
pub open spec fn dapp_readme_text(name: Seq<char>) -> Seq<char> {
    DAPP_README_HEAD@ + name + DAPP_README_BODY@
}

/// Writes the README of a dApp.
pub fn dapp_readme(name: &str) -> (res: String)
    ensures
        res@ == dapp_readme_text(name@),
{
    let mut res = String::from_str(DAPP_README_HEAD);
    res.append(name);
    res.append(DAPP_README_BODY);
    res
}

// ── Laws ────────────────────────────────────────────────────────────────

/// Whether `t` occurs in `s`.
pub open spec fn contains_text(s: Seq<char>, t: Seq<char>) -> bool {
    exists|i: int| 0 <= i && i + t.len() <= s.len() && #[trigger] s.subrange(i, i + t.len()) == t
}

/// `t` occurs in `a + t + b`.
pub proof fn lemma_contains_middle(a: Seq<char>, t: Seq<char>, b: Seq<char>)
    ensures
        contains_text(a + t + b, t),
{
    let s = a + t + b;
    assert(s.subrange(a.len() as int, a.len() + t.len() as int) =~= t);
}

/// A `Cargo.toml` holds the package name, the version lines and the build
/// settings; the license `None` or an empty license gives the same file as
/// no license at all, with no `license` line whatever the author; and the
/// author only adds its own line, after the version lines, leaving the
/// rest (license line included) as it is without an author.
pub proof fn lemma_cargo_toml_fields(name: Seq<char>, license: Seq<char>, author: Seq<char>)
    ensures
        CARGO_HEAD@.is_prefix_of(cargo_toml_text(name, license, author)),
        (license == NO_LICENSE@ || license.len() == 0) ==> cargo_toml_text(name, license, author)
            == CARGO_HEAD@ + name + CARGO_VERSION@ + author_line(author) + CARGO_TAIL@,
        (license == NO_LICENSE@ || license.len() == 0) ==> cargo_toml_text(name, license, author)
            == cargo_toml_text(name, Seq::empty(), author),
        !(license == NO_LICENSE@ || license.len() == 0) ==> contains_text(
            cargo_toml_text(name, license, author),
            CARGO_LICENSE_OPEN@ + license + CARGO_LICENSE_CLOSE@,
        ),
        author.len() > 0 ==> contains_text(
            cargo_toml_text(name, license, author),
            CARGO_AUTHORS_OPEN@ + author + CARGO_AUTHORS_CLOSE@,
        ),
        ({
            let k = CARGO_HEAD@.len() + name.len() + CARGO_VERSION@.len();
            let bare = cargo_toml_text(name, license, Seq::empty());
            cargo_toml_text(name, license, author) == bare.take(k as int) + author_line(author) + bare.skip(k as int)
        }),
{
    let full = cargo_toml_text(name, license, author);
    let pre = CARGO_HEAD@ + name + CARGO_VERSION@;
    assert(full.subrange(0, CARGO_HEAD@.len() as int) =~= CARGO_HEAD@);
    let bare = cargo_toml_text(name, license, Seq::empty());
    assert(author_line(Seq::empty()) =~= Seq::<char>::empty());
    assert(bare =~= pre + license_line(license) + CARGO_TAIL@);
    assert(bare.take(pre.len() as int) =~= pre);
    assert(bare.skip(pre.len() as int) =~= license_line(license) + CARGO_TAIL@);
    assert(full =~= bare.take(pre.len() as int) + author_line(author) + bare.skip(pre.len() as int));
    if license == NO_LICENSE@ || license.len() == 0 {
        assert(full =~= pre + author_line(author) + CARGO_TAIL@);
        assert(license_line(Seq::empty()) =~= Seq::<char>::empty());
        assert(cargo_toml_text(name, Seq::empty(), author) =~= pre + author_line(author) + CARGO_TAIL@);
    } else {
        let l = CARGO_LICENSE_OPEN@ + license + CARGO_LICENSE_CLOSE@;
        assert(full =~= (pre + author_line(author)) + l + CARGO_TAIL@);
        lemma_contains_middle(pre + author_line(author), l, CARGO_TAIL@);
    }
    if author.len() > 0 {
        let a = CARGO_AUTHORS_OPEN@ + author + CARGO_AUTHORS_CLOSE@;
        assert(full =~= pre + a + (license_line(license) + CARGO_TAIL@));
        lemma_contains_middle(pre, a, license_line(license) + CARGO_TAIL@);
    }
}

/// The test module of the hello-world contract for the project `name`.
pub open spec fn hello_test_module(name: Seq<char>) -> Seq<char> {
    TEST_HEAD@ + pascal_case(name) + TEST_MID@ + pascal_case(name) + TEST_TAIL@
}

/// The hello-world contract asked with a test module is the one asked
/// without, with the test module (naming the contract's type) inserted
/// before its final newline, whatever the storage kind; storage kinds other
/// than `persistent` and `temporary` all give the contract without
/// storage; `persistent` and `temporary` add their own accessors and the
/// storage import.
pub proof fn lemma_hello_world_options(name: Seq<char>, storage: Seq<char>, include_tests: bool)
    ensures
        hello_world_text(name, storage, true) == hello_world_text(name, storage, false).drop_last()
            + hello_test_module(name) + NEWLINE@,
        include_tests ==> contains_text(
            hello_world_text(name, storage, include_tests),
            hello_test_module(name),
        ),
        HELLO_HEAD@.is_prefix_of(hello_world_text(name, storage, include_tests)),
        !(storage == PERSISTENT@ || storage == TEMPORARY@) ==> hello_world_text(
            name,
            storage,
            include_tests,
        ) == hello_world_text(name, Seq::empty(), include_tests),
        storage == PERSISTENT@ ==> contains_text(
            hello_world_text(name, storage, include_tests),
            STORAGE_IMPORT@,
        ) && contains_text(hello_world_text(name, storage, include_tests), PERSISTENT_METHODS@),
        storage == TEMPORARY@ ==> contains_text(
            hello_world_text(name, storage, include_tests),
            STORAGE_IMPORT@,
        ) && contains_text(hello_world_text(name, storage, include_tests), TEMPORARY_METHODS@),
{
    let pascal = pascal_case(name);
    let front = HELLO_HEAD@ + storage_import(storage) + contract_decl(pascal) + HELLO_BODY@
        + storage_methods(storage) + IMPL_CLOSE@;
    reveal_strlit("\n");
    assert(hello_world_text(name, storage, false) =~= front + NEWLINE@);
    assert((front + NEWLINE@).drop_last() =~= front);
    assert(test_module(pascal, true) == hello_test_module(name));
    assert(hello_world_text(name, storage, true) =~= front + hello_test_module(name) + NEWLINE@);
    let whole = hello_world_text(name, storage, include_tests);
    assert(whole.subrange(0, HELLO_HEAD@.len() as int) =~= HELLO_HEAD@);
    if include_tests {
        lemma_contains_middle(front, hello_test_module(name), NEWLINE@);
    }
    if !(storage == PERSISTENT@ || storage == TEMPORARY@) {
        reveal_strlit("persistent");
        reveal_strlit("temporary");
        assert(Seq::<char>::empty() != PERSISTENT@);
        assert(Seq::<char>::empty() != TEMPORARY@);
        assert(whole =~= hello_world_text(name, Seq::empty(), include_tests));
    }
    let rest = contract_decl(pascal) + HELLO_BODY@ + storage_methods(storage) + IMPL_CLOSE@
        + test_module(pascal, include_tests) + NEWLINE@;
    let tail = IMPL_CLOSE@ + test_module(pascal, include_tests) + NEWLINE@;
    if storage == PERSISTENT@ || storage == TEMPORARY@ {
        assert(whole =~= HELLO_HEAD@ + STORAGE_IMPORT@ + rest);
        lemma_contains_middle(HELLO_HEAD@, STORAGE_IMPORT@, rest);
        let mid = HELLO_HEAD@ + STORAGE_IMPORT@ + contract_decl(pascal) + HELLO_BODY@;
        assert(whole =~= mid + storage_methods(storage) + tail);
        lemma_contains_middle(mid, storage_methods(storage), tail);
        reveal_strlit("persistent");
        reveal_strlit("temporary");
        assert(PERSISTENT@ != TEMPORARY@) by {
            assert(PERSISTENT@[0] != TEMPORARY@[0]);
        }
    }
}

} // verus!
