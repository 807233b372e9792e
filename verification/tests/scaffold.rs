use starforge::scaffold::{
    contract_options, finish_interactive, license_choices, route, scaffold_contract,
    scaffold_dapp, storage_choices, Action, NewCommands, Route, ScaffoldError,
};
use std::path::Path;
use starforge::templates::{cargo_config, cargo_toml, hello_world_template, readme, token_template};

fn full_path(dir: &str, part: &str) -> String {
    Path::new(dir).join(part).to_str().unwrap().to_string()
}

fn paths_of(actions: &[Action]) -> Vec<String> {
    actions
        .iter()
        .filter_map(|a| match a {
            Action::CreateDir(d, p) => Some(full_path(d, p)),
            Action::WriteFile(d, p, _) => Some(full_path(d, p)),
            _ => None,
        })
        .collect()
}

fn file<'a>(actions: &'a [Action], path: &str) -> &'a str {
    for a in actions {
        if let Action::WriteFile(d, p, c) = a {
            if full_path(d, p) == path {
                return c.as_str();
            }
        }
    }
    panic!("no file {}", path)
}

#[test]
fn actions_hold_project_dir_and_relative_parts() {
    let plan = scaffold_dapp("site".to_string(), false).ok().unwrap();
    match &plan[2] {
        Action::CreateDir(d, p) => {
            assert_eq!(d, "site");
            assert_eq!(p, "src/components");
        }
        _ => panic!("directory expected"),
    }
}

#[test]
fn contract_plan_lists_files_in_order() {
    let plan = scaffold_contract(
        "my-token".to_string(),
        "token".to_string(),
        "MIT",
        "",
        "none",
        true,
        false,
    )
    .ok()
    .unwrap();
    assert_eq!(plan.len(), 21);
    assert_eq!(
        paths_of(&plan),
        vec![
            "my-token/src",
            "my-token/.cargo",
            "my-token/Cargo.toml",
            "my-token/.cargo/config.toml",
            "my-token/.gitignore",
            "my-token/src/lib.rs",
            "my-token/README.md",
        ]
    );
    assert_eq!(file(&plan, "my-token/Cargo.toml"), cargo_toml("my-token", "MIT", ""));
    assert_eq!(file(&plan, "my-token/.cargo/config.toml"), cargo_config());
    assert_eq!(file(&plan, "my-token/.gitignore"), "target/\n.soroban/\n");
    assert_eq!(file(&plan, "my-token/src/lib.rs"), token_template("my-token"));
    assert_eq!(file(&plan, "my-token/README.md"), readme("my-token", "token"));
    match &plan[0] {
        Action::Header(h) => assert_eq!(h, "Scaffolding Soroban contract: my-token"),
        _ => panic!("header expected"),
    }
    match &plan[9] {
        Action::Step(3, 4, m) => assert_eq!(m, "Generating 'token' contract source\u{2026}"),
        _ => panic!("step expected"),
    }
    match &plan[19] {
        Action::Info(m) => assert_eq!(
            m,
            "  starforge deploy --wasm target/wasm32-unknown-unknown/release/my_token.wasm"
        ),
        _ => panic!("hint expected"),
    }
}

#[test]
fn unknown_template_falls_back_to_hello_world() {
    let plan = scaffold_contract(
        "demo".to_string(),
        "other".to_string(),
        "None",
        "",
        "temporary",
        false,
        false,
    )
    .ok()
    .unwrap();
    assert_eq!(file(&plan, "demo/src/lib.rs"), hello_world_template("demo", "temporary", false));
}

#[test]
fn existing_directory_is_refused() {
    match scaffold_contract("demo".to_string(), "nft".to_string(), "MIT", "", "none", true, true) {
        Err(e) => assert_eq!(e.message(), "Directory 'demo' already exists"),
        Ok(_) => panic!("refusal expected"),
    }
    match scaffold_dapp("site".to_string(), true) {
        Err(ScaffoldError::DirectoryExists(n)) => assert_eq!(n, "site"),
        Ok(_) => panic!("refusal expected"),
    }
}

#[test]
fn dapp_plan_lists_files_in_order() {
    let plan = scaffold_dapp("site".to_string(), false).ok().unwrap();
    assert_eq!(plan.len(), 16);
    assert_eq!(
        paths_of(&plan),
        vec![
            "site/src/components",
            "site/public",
            "site/package.json",
            "site/index.html",
            "site/src/main.jsx",
            "site/src/App.jsx",
            "site/.gitignore",
            "site/README.md",
        ]
    );
    assert_eq!(file(&plan, "site/.gitignore"), "node_modules/\ndist/\n");
    match &plan[14] {
        Action::Info(m) => assert_eq!(m, "cd site && npm install && npm run dev"),
        _ => panic!("hint expected"),
    }
}

#[test]
fn paths_for_trailing_separator_and_empty_name() {
    let plan = scaffold_dapp("site/".to_string(), false).ok().unwrap();
    assert_eq!(paths_of(&plan)[0], "site/src/components");
    let plan = scaffold_dapp(String::new(), false).ok().unwrap();
    assert_eq!(paths_of(&plan)[1], "public");
}

#[test]
fn interactive_answers_pick_from_lists() {
    assert_eq!(license_choices(), vec!["MIT", "Apache-2.0", "None"]);
    assert_eq!(storage_choices(), vec!["persistent", "temporary", "none"]);
    let opts = contract_options("demo".to_string(), "Ann".to_string(), 1, 0, false);
    assert_eq!(opts.license, "Apache-2.0");
    assert_eq!(opts.storage, "persistent");
    let plan = finish_interactive(opts, true, false).ok().unwrap();
    assert_eq!(file(&plan, "demo/Cargo.toml"), cargo_toml("demo", "Apache-2.0", "Ann"));
    assert_eq!(file(&plan, "demo/src/lib.rs"), hello_world_template("demo", "persistent", false));
    assert_eq!(file(&plan, "demo/README.md"), readme("demo", "hello-world"));
}

#[test]
fn declining_writes_nothing() {
    let opts = contract_options("demo".to_string(), "Ann".to_string(), 0, 2, true);
    let plan = finish_interactive(opts, false, true).ok().unwrap();
    assert_eq!(plan.len(), 1);
    assert!(matches!(plan[0], Action::Aborted));
}

#[test]
fn commands_route_to_plans() {
    let cmd = NewCommands::Contract {
        name: "demo".to_string(),
        template: "hello-world".to_string(),
        interactive: false,
    };
    match route(cmd, false) {
        Route::Plan(Ok(plan)) => {
            assert_eq!(file(&plan, "demo/Cargo.toml"), cargo_toml("demo", "MIT", ""));
            assert_eq!(file(&plan, "demo/src/lib.rs"), hello_world_template("demo", "none", true));
        }
        _ => panic!("plan expected"),
    }
    let cmd = NewCommands::Contract {
        name: "demo".to_string(),
        template: "hello-world".to_string(),
        interactive: true,
    };
    match route(cmd, true) {
        Route::Interactive { default_name } => assert_eq!(default_name, "demo"),
        _ => panic!("questions expected"),
    }
    match route(NewCommands::Dapp { name: "site".to_string() }, true) {
        Route::Plan(Err(e)) => assert_eq!(e.message(), "Directory 'site' already exists"),
        _ => panic!("refusal expected"),
    }
}
