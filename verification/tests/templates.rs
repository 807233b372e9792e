use starforge::templates::{
    cargo_config, cargo_toml, dapp_app, dapp_index, dapp_main, dapp_package, dapp_readme,
    hello_world_template, nft_template, readme, token_template, voting_template,
};
use starforge::text::{same_text, snake_name, to_pascal};

const CARGO_REST: &str = r#"
[lib]
crate-type = ["cdylib"]

[dependencies]
soroban-sdk = "21.0.0"

[dev-dependencies]
soroban-sdk = { version = "21.0.0", features = ["testutils"] }

[profile.release]
opt-level = "z"
overflow-checks = true
debug = 0
strip = "symbols"
debug-assertions = false
panic = "abort"
codegen-units = 1
lto = true
"#;

#[test]
fn cargo_toml_with_author_and_license() {
    let got = cargo_toml("demo", "MIT", "Ann");
    let want = format!(
        "[package]\nname = \"demo\"\nversion = \"0.1.0\"\nedition = \"2021\"\nauthors = [\"Ann\"]\nlicense = \"MIT\"\n{}",
        CARGO_REST
    );
    assert_eq!(got, want);
}

#[test]
fn cargo_toml_without_optional_fields() {
    let want = format!(
        "[package]\nname = \"demo\"\nversion = \"0.1.0\"\nedition = \"2021\"\n{}",
        CARGO_REST
    );
    assert_eq!(cargo_toml("demo", "None", ""), want);
    assert_eq!(cargo_toml("demo", "", ""), want);
}

#[test]
fn cargo_toml_license_only() {
    let got = cargo_toml("x", "Apache-2.0", "");
    assert!(got.contains("license = \"Apache-2.0\"\n"));
    assert!(!got.contains("authors"));
}

#[test]
fn cargo_config_text() {
    assert_eq!(
        cargo_config(),
        "[target.wasm32-unknown-unknown]\nrustflags = [\"-C\", \"target-feature=+multivalue,+sign-ext\"]\n"
    );
}

#[test]
fn pascal_case_of_names() {
    assert_eq!(to_pascal("my-token"), "MyToken");
    assert_eq!(to_pascal("hello_world app"), "HelloWorldApp");
    assert_eq!(to_pascal("a--b"), "AB");
    assert_eq!(to_pascal(""), "");
    assert_eq!(to_pascal("-_ "), "");
    assert_eq!(to_pascal("already"), "Already");
    assert_eq!(to_pascal("x1-2y"), "X12y");
    assert_eq!(to_pascal("straße-öl"), "StraßeÖl");
    assert_eq!(to_pascal("ßig"), "SSig");
}

#[test]
fn pascal_is_idempotent_on_ascii() {
    for s in ["my-token", "a--b", "x1-2y", "already", "", "-_ ", "9lives_now"] {
        let once = to_pascal(s);
        assert_eq!(to_pascal(&once), once);
    }
}

#[test]
fn pascal_words_are_independent() {
    let a = "foo-bar";
    let b = "baz_qux";
    let joined = format!("{}-{}", a, b);
    assert_eq!(to_pascal(&joined), format!("{}{}", to_pascal(a), to_pascal(b)));
}

#[test]
fn snake_names() {
    assert_eq!(snake_name("my-token"), "my_token");
    assert_eq!(snake_name("a-b-c"), "a_b_c");
    assert_eq!(snake_name("plain"), "plain");
    assert_eq!(snake_name(""), "");
    let once = snake_name("x-y_z");
    assert_eq!(snake_name(&once), once);
}

#[test]
fn text_equality() {
    assert!(same_text("token", "token"));
    assert!(!same_text("token", "tokens"));
    assert!(!same_text("nft", "NFT"));
    assert!(same_text("", ""));
}

const HELLO_PREFIX: &str = "#![no_std]\nuse soroban_sdk::{contract, contractimpl, symbol_short, vec, Env, Symbol, Vec};";

const HELLO_IMPL: &str = "\n\n#[contract]\npub struct MyApp;\n\n#[contractimpl]\nimpl MyApp {\n    pub fn hello(env: Env, to: Symbol) -> Vec<Symbol> {\n        vec![&env, symbol_short!(\"Hello\"), to]\n    }";

#[test]
fn hello_world_plain() {
    let got = hello_world_template("my-app", "none", false);
    let want = format!("{}{}\n}}\n", HELLO_PREFIX, HELLO_IMPL);
    assert_eq!(got, want);
}

#[test]
fn hello_world_persistent_with_tests() {
    let got = hello_world_template("my-app", "persistent", true);
    let methods = "\n    pub fn set_value(env: Env, key: Symbol, value: u64) {\n        env.storage().persistent().set(&key, &value);\n    }\n\n    pub fn get_value(env: Env, key: Symbol) -> Option<u64> {\n        env.storage().persistent().get(&key)\n    }";
    let tests = "\n\n#[cfg(test)]\nmod test {\n    use super::*;\n    use soroban_sdk::{Env, symbol_short};\n\n    #[test]\n    fn test_hello() {\n        let env = Env::default();\n        let id  = env.register_contract(None, MyApp);\n        let client = MyAppClient::new(&env, &id);\n        let words = client.hello(&symbol_short!(\"Dev\"));\n        assert_eq!(words, vec![&env, symbol_short!(\"Hello\"), symbol_short!(\"Dev\")]);\n    }\n}";
    let want = format!(
        "{}\nuse soroban_sdk::storage::Storage;{}{}\n}}{}\n",
        HELLO_PREFIX, HELLO_IMPL, methods, tests
    );
    assert_eq!(got, want);
}

#[test]
fn hello_world_temporary() {
    let got = hello_world_template("my-app", "temporary", false);
    assert!(got.contains("use soroban_sdk::storage::Storage;"));
    assert!(got.contains("env.storage().temporary().set(&key, &value);"));
    assert!(!got.contains("persistent"));
    assert!(!got.contains("mod test"));
}

#[test]
fn token_contract() {
    let got = token_template("gold-coin");
    assert!(got.starts_with("#![no_std]\nuse soroban_sdk::{contract, contractimpl, Address, Env, String};\n\n#[contract]\npub struct GoldCoin;\n\n#[contractimpl]\nimpl GoldCoin {\n    pub fn initialize("));
    assert!(got.contains("    pub fn balance(_env: Env, _id: Address) -> i128 {\n        // TODO: return balance from storage\n        0\n    }"));
    assert!(got.ends_with("        let _ = (to, amount);\n    }\n}\n"));
}

#[test]
fn voting_contract() {
    let got = voting_template("poll");
    assert!(got.starts_with("#![no_std]\nuse soroban_sdk::{contract, contractimpl, Address, Env, Symbol};\n\n#[contract]\npub struct Poll;\n\n#[contractimpl]\nimpl Poll {\n"));
    assert!(got.contains("    pub fn results(_env: Env, proposal_id: u32) -> (u32, u32) {\n        // TODO: return (yes_votes, no_votes)\n        let _ = proposal_id;\n        (0, 0)\n    }\n}\n"));
}

#[test]
fn nft_contract() {
    let got = nft_template("art");
    assert!(got.starts_with("#![no_std]\nuse soroban_sdk::{contract, contractimpl, Address, Env, String};\n\n#[contract]\npub struct Art;\n\n#[contractimpl]\nimpl Art {\n"));
    assert!(got.contains("        panic!(\"not implemented\")\n"));
}

#[test]
fn contract_readme() {
    let got = readme("my-token", "nft");
    let want = "# my-token\n\nA Soroban smart contract scaffolded with [starforge](https://github.com/YOUR_USERNAME/starforge).\n\n## Build\n\n```bash\nstellar contract build\n```\n\n## Test\n\n```bash\ncargo test\n```\n\n## Deploy\n\n```bash\nstarforge deploy \\\n  --wasm target/wasm32-unknown-unknown/release/my_token.wasm \\\n  --network testnet\n```\n\nTemplate: `nft`\n";
    assert_eq!(got, want);
}

#[test]
fn dapp_files() {
    assert_eq!(
        dapp_package("web"),
        "{\n  \"name\": \"web\",\n  \"version\": \"0.1.0\",\n  \"type\": \"module\",\n  \"scripts\": {\n    \"dev\": \"vite\",\n    \"build\": \"vite build\",\n    \"preview\": \"vite preview\"\n  },\n  \"dependencies\": {\n    \"@stellar/stellar-sdk\": \"^12.3.0\",\n    \"react\": \"^18.3.0\",\n    \"react-dom\": \"^18.3.0\"\n  },\n  \"devDependencies\": {\n    \"@vitejs/plugin-react\": \"^4.3.1\",\n    \"vite\": \"^5.4.0\"\n  }\n}\n"
    );
    assert_eq!(
        dapp_index("web"),
        "<!DOCTYPE html>\n<html lang=\"en\">\n  <head>\n    <meta charset=\"UTF-8\" />\n    <meta name=\"viewport\" content=\"width=device-width, initial-scale=1.0\" />\n    <title>web</title>\n  </head>\n  <body>\n    <div id=\"root\"></div>\n    <script type=\"module\" src=\"/src/main.jsx\"></script>\n  </body>\n</html>\n"
    );
    assert_eq!(
        dapp_main(),
        "import React from 'react'\nimport ReactDOM from 'react-dom/client'\nimport App from './App.jsx'\n\nReactDOM.createRoot(document.getElementById('root')).render(\n  <React.StrictMode><App /></React.StrictMode>\n)\n"
    );
    assert_eq!(
        dapp_app("web"),
        "import React from 'react'\n\nexport default function App() {\n  return (\n    <div style={{ fontFamily: 'monospace', padding: '2rem' }}>\n      <h1>\u{26a1} web</h1>\n      <p>Your Stellar dApp is ready. Start building!</p>\n    </div>\n  )\n}\n"
    );
    assert_eq!(
        dapp_readme("web"),
        "# web\n\nA Stellar dApp scaffolded with [starforge](https://github.com/YOUR_USERNAME/starforge).\n\n## Getting Started\n\n```bash\nnpm install\nnpm run dev\n```\n"
    );
}
