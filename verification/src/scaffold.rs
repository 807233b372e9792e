//! What creating a project does, as a list of actions: messages to show,
//! directories to create and files to write. Running the actions is left
//! to the caller; every decision is made here.

use vstd::prelude::*;
use crate::text::{snake, snake_name, same_text, pascal_case};
use crate::templates::{
    cargo_config, cargo_toml, cargo_toml_text, hello_world_template, hello_world_text, nft_template,
    nft_text, readme, readme_text, token_template, token_text, voting_template, voting_text,
    CARGO_CONFIG, NEWLINE, NO_LICENSE, PERSISTENT, TEMPORARY, dapp_package, dapp_package_text, dapp_index, dapp_index_text, dapp_main,
    DAPP_MAIN, dapp_app, dapp_app_text, dapp_readme, dapp_readme_text, README_HEAD, README_BODY,
    README_TEMPLATE, README_TAIL, contains_text, hello_test_module, lemma_hello_world_options,
    contract_decl, ADDRESS_STRING_HEAD, TOKEN_BODY, VOTING_HEAD, VOTING_BODY, NFT_BODY,
    DAPP_APP_HEAD, DAPP_APP_TAIL, DAPP_PACKAGE_HEAD, DAPP_PACKAGE_TAIL, DAPP_INDEX_HEAD,
    DAPP_INDEX_TAIL, DAPP_README_HEAD, DAPP_README_BODY,
};

verus! {

/// One thing to do while creating a project.
pub enum Action {
    /// A section title.
    Header(String),
    /// Progress: step `.0` of `.1`, described by `.2`.
    Step(usize, usize, String),
    /// A line made of `.0`, then `.1` highlighted, then `.2`.
    Highlight(String, String, String),
    /// A plain line.
    Text(String),
    /// An empty line.
    Blank,
    /// Create the directory at the relative path `.1` under the directory
    /// `.0` (the path `Path::new(.0).join(.1)`), with all missing parents.
    CreateDir(String, String),
    /// Write the file at the relative path `.1` under the directory `.0`
    /// (the path `Path::new(.0).join(.1)`) with contents `.2`.
    WriteFile(String, String, String),
    /// A success message.
    Success(String),
    /// A hint.
    Info(String),
    /// The notice that nothing was written.
    Aborted,
}

/// An action with its texts as character sequences.
pub enum ActionView {
    Header(Seq<char>),
    Step(usize, usize, Seq<char>),
    Highlight(Seq<char>, Seq<char>, Seq<char>),
    Text(Seq<char>),
    Blank,
    CreateDir(Seq<char>, Seq<char>),
    WriteFile(Seq<char>, Seq<char>, Seq<char>),
    Success(Seq<char>),
    Info(Seq<char>),
    Aborted,
}

impl View for Action {
    type V = ActionView;

    open spec fn view(&self) -> ActionView {
        match self {
            Action::Header(s) => ActionView::Header(s@),
            Action::Step(n, total, s) => ActionView::Step(*n, *total, s@),
            Action::Highlight(a, b, c) => ActionView::Highlight(a@, b@, c@),
            Action::Text(s) => ActionView::Text(s@),
            Action::Blank => ActionView::Blank,
            Action::CreateDir(d, p) => ActionView::CreateDir(d@, p@),
            Action::WriteFile(d, p, c) => ActionView::WriteFile(d@, p@, c@),
            Action::Success(s) => ActionView::Success(s@),
            Action::Info(s) => ActionView::Info(s@),
            Action::Aborted => ActionView::Aborted,
        }
    }
}

/// The notice that `Action::Aborted` stands for, shown after a cross mark.
pub const ABORTED_NOTICE: &'static str = "Aborted — no files written.";

/// Why a project is not created.
pub enum ScaffoldError {
    /// A file or directory with the project's name is already there.
    DirectoryExists(String),
}

/// The view of a refusal: the name of the existing directory.
pub enum ScaffoldErrorView {
    DirectoryExists(Seq<char>),
}

impl View for ScaffoldError {
    type V = ScaffoldErrorView;

    open spec fn view(&self) -> ScaffoldErrorView {
        match self {
            ScaffoldError::DirectoryExists(name) => ScaffoldErrorView::DirectoryExists(name@),
        }
    }
}

/// Start of the message of a refusal.
pub const EXISTS_HEAD: &'static str = "Directory '";

/// End of the message of a refusal.
pub const EXISTS_TAIL: &'static str = "' already exists";

/// The message shown for a refusal.
pub open spec fn error_message(e: ScaffoldErrorView) -> Seq<char> {
    match e {
        ScaffoldErrorView::DirectoryExists(name) => EXISTS_HEAD@ + name + EXISTS_TAIL@,
    }
}

impl ScaffoldError {
    /// The message shown for this refusal.
    pub fn message(&self) -> (res: String)
        ensures
            res@ == error_message(self@),
    {
        match self {
            ScaffoldError::DirectoryExists(name) => {
                let mut res = String::from_str(EXISTS_HEAD);
                res.append(name.as_str());
                res.append(EXISTS_TAIL);
                res
            },
        }
    }
}

/// The actions of a list, as views.
pub open spec fn views(v: Seq<Action>) -> Seq<ActionView> {
    v.map_values(|a: Action| a@)
}

/// The view of the outcome of planning.
pub open spec fn outcome_view(r: Result<Vec<Action>, ScaffoldError>) -> Result<
    Seq<ActionView>,
    ScaffoldErrorView,
> {
    match r {
        Ok(v) => Ok(views(v@)),
        Err(e) => Err(e@),
    }
}

// ── Contract projects ───────────────────────────────────────────────────
//
// The texts shown while a contract project is created, and the paths,
// relative to the project's directory, of what it holds.

pub const CONTRACT_HEADER: &'static str = "Scaffolding Soroban contract: ";
pub const TEMPLATE_LABEL: &'static str = "  Template: ";
pub const STEP_DIRS: &'static str = "Creating directory structure…";
pub const STEP_CARGO: &'static str = "Writing Cargo.toml…";
pub const STEP_SOURCE_HEAD: &'static str = "Generating '";
pub const STEP_SOURCE_TAIL: &'static str = "' contract source…";
pub const STEP_README: &'static str = "Writing README.md…";
pub const CONTRACT_DONE_HEAD: &'static str = "Contract '";
pub const DONE_TAIL: &'static str = "' scaffolded!";
pub const NEXT_STEPS: &'static str = "  Next steps:";
pub const CD_HINT: &'static str = "  cd ";
pub const BUILD_HINT: &'static str = "  stellar contract build";
pub const DEPLOY_HINT_HEAD: &'static str =
    "  starforge deploy --wasm target/wasm32-unknown-unknown/release/";
pub const WASM_SUFFIX: &'static str = ".wasm";
pub const CONTRACT_GITIGNORE: &'static str = "target/\n.soroban/\n";

pub const SRC_DIR: &'static str = "src";
pub const CARGO_DIR: &'static str = ".cargo";
pub const CARGO_TOML_FILE: &'static str = "Cargo.toml";
pub const CARGO_CONFIG_FILE: &'static str = ".cargo/config.toml";
pub const GITIGNORE_FILE: &'static str = ".gitignore";
pub const LIB_FILE: &'static str = "src/lib.rs";
pub const README_FILE: &'static str = "README.md";

/// The template names that select a contract other than hello-world.
pub const TOKEN: &'static str = "token";
pub const VOTING: &'static str = "voting";
pub const NFT: &'static str = "nft";

/// The contract source for a template name; any name other than `token`,
/// `voting` and `nft` gives the hello-world contract.
pub open spec fn contract_source_text(
    name: Seq<char>,
    template: Seq<char>,
    storage: Seq<char>,
    include_tests: bool,
) -> Seq<char> {
    if template == TOKEN@ {
        token_text(name)
    } else if template == VOTING@ {
        voting_text(name)
    } else if template == NFT@ {
        nft_text(name)
    } else {
        hello_world_text(name, storage, include_tests)
    }
}

/// The actions that create the contract project `name` from `template`.
pub open spec fn contract_actions(
    name: Seq<char>,
    template: Seq<char>,
    license: Seq<char>,
    author: Seq<char>,
    storage: Seq<char>,
    include_tests: bool,
) -> Seq<ActionView> {
    seq![
        ActionView::Header(CONTRACT_HEADER@ + name),
        ActionView::Highlight(TEMPLATE_LABEL@, template, NEWLINE@),
        ActionView::Step(1, 4, STEP_DIRS@),
        ActionView::CreateDir(name, SRC_DIR@),
        ActionView::CreateDir(name, CARGO_DIR@),
        ActionView::Step(2, 4, STEP_CARGO@),
        ActionView::WriteFile(name, CARGO_TOML_FILE@, cargo_toml_text(name, license, author)),
        ActionView::WriteFile(name, CARGO_CONFIG_FILE@, CARGO_CONFIG@),
        ActionView::WriteFile(name, GITIGNORE_FILE@, CONTRACT_GITIGNORE@),
        ActionView::Step(3, 4, STEP_SOURCE_HEAD@ + template + STEP_SOURCE_TAIL@),
        ActionView::WriteFile(
            name,
            LIB_FILE@,
            contract_source_text(name, template, storage, include_tests),
        ),
        ActionView::Step(4, 4, STEP_README@),
        ActionView::WriteFile(name, README_FILE@, readme_text(name, template)),
        ActionView::Blank,
        ActionView::Success(CONTRACT_DONE_HEAD@ + name + DONE_TAIL@),
        ActionView::Blank,
        ActionView::Text(NEXT_STEPS@),
        ActionView::Info(CD_HINT@ + name),
        ActionView::Info(BUILD_HINT@),
        ActionView::Info(DEPLOY_HINT_HEAD@ + snake(name) + WASM_SUFFIX@),
        ActionView::Blank,
    ]
}

/// Creating the contract project `name` is refused when a directory of
/// that name exists, and otherwise takes `contract_actions`.
pub open spec fn contract_outcome(
    name: Seq<char>,
    template: Seq<char>,
    license: Seq<char>,
    author: Seq<char>,
    storage: Seq<char>,
    include_tests: bool,
    dir_exists: bool,
) -> Result<Seq<ActionView>, ScaffoldErrorView> {
    if dir_exists {
        Err(ScaffoldErrorView::DirectoryExists(name))
    } else {
        Ok(contract_actions(name, template, license, author, storage, include_tests))
    }
}

/// `a` followed by `b`.
fn concat2(a: &str, b: &str) -> (res: String)
    ensures
        res@ == a@ + b@,
{
    let mut res = String::from_str(a);
    res.append(b);
    res
}

/// `a`, `b` and `c` in a row.
fn concat3(a: &str, b: &str, c: &str) -> (res: String)
    ensures
        res@ == a@ + b@ + c@,
{
    let mut res = String::from_str(a);
    res.append(b);
    res.append(c);
    res
}

/// Writes the source of the contract for a template name.
fn contract_source(name: &str, template: &str, storage: &str, include_tests: bool) -> (res: String)
    ensures
        res@ == contract_source_text(name@, template@, storage@, include_tests),
{
    if same_text(template, TOKEN) {
        token_template(name)
    } else if same_text(template, VOTING) {
        voting_template(name)
    } else if same_text(template, NFT) {
        nft_template(name)
    } else {
        hello_world_template(name, storage, include_tests)
    }
}

/// Plans the creation of the contract project `name` from `template`,
/// given whether a directory named `name` already exists.
pub fn scaffold_contract(
    name: String,
    template: String,
    license: &str,
    author: &str,
    storage: &str,
    include_tests: bool,
    dir_exists: bool,
) -> (res: Result<Vec<Action>, ScaffoldError>)
    ensures
        outcome_view(res) == contract_outcome(
            name@,
            template@,
            license@,
            author@,
            storage@,
            include_tests,
            dir_exists,
        ),
{
    if dir_exists {
        return Err(ScaffoldError::DirectoryExists(name));
    }
    let n = name.as_str();
    let t = template.as_str();
    let mut v: Vec<Action> = Vec::new();
    v.push(Action::Header(concat2(CONTRACT_HEADER, n)));
    v.push(
        Action::Highlight(String::from_str(TEMPLATE_LABEL), String::from_str(t), String::from_str(NEWLINE)),
    );
    v.push(Action::Step(1, 4, String::from_str(STEP_DIRS)));
    v.push(Action::CreateDir(String::from_str(n), String::from_str(SRC_DIR)));
    v.push(Action::CreateDir(String::from_str(n), String::from_str(CARGO_DIR)));
    v.push(Action::Step(2, 4, String::from_str(STEP_CARGO)));
    v.push(Action::WriteFile(String::from_str(n), String::from_str(CARGO_TOML_FILE), cargo_toml(n, license, author)));
    v.push(Action::WriteFile(String::from_str(n), String::from_str(CARGO_CONFIG_FILE), String::from_str(cargo_config())));
    v.push(Action::WriteFile(String::from_str(n), String::from_str(GITIGNORE_FILE), String::from_str(CONTRACT_GITIGNORE)));
    v.push(Action::Step(3, 4, concat3(STEP_SOURCE_HEAD, t, STEP_SOURCE_TAIL)));
    v.push(Action::WriteFile(String::from_str(n), String::from_str(LIB_FILE), contract_source(n, t, storage, include_tests)));
    v.push(Action::Step(4, 4, String::from_str(STEP_README)));
    v.push(Action::WriteFile(String::from_str(n), String::from_str(README_FILE), readme(n, t)));
    v.push(Action::Blank);
    v.push(Action::Success(concat3(CONTRACT_DONE_HEAD, n, DONE_TAIL)));
    v.push(Action::Blank);
    v.push(Action::Text(String::from_str(NEXT_STEPS)));
    v.push(Action::Info(concat2(CD_HINT, n)));
    v.push(Action::Info(String::from_str(BUILD_HINT)));
    let snake = snake_name(n);
    v.push(Action::Info(concat3(DEPLOY_HINT_HEAD, snake.as_str(), WASM_SUFFIX)));
    v.push(Action::Blank);
    assert(views(v@) =~= contract_actions(
        name@,
        template@,
        license@,
        author@,
        storage@,
        include_tests,
    ));
    Ok(v)
}

// ── dApp projects ───────────────────────────────────────────────────────
//
// The texts shown while a dApp project is created, and the paths,
// relative to the project's directory, of what it holds.

pub const DAPP_HEADER: &'static str = "Scaffolding Stellar dApp: ";
pub const STEP_STRUCTURE: &'static str = "Creating project structure…";
pub const STEP_PACKAGE: &'static str = "Writing package.json…";
pub const STEP_APP: &'static str = "Writing app scaffold…";
pub const DAPP_DONE_HEAD: &'static str = "dApp '";
pub const NPM_HINT_TAIL: &'static str = " && npm install && npm run dev";
pub const CD: &'static str = "cd ";
pub const DAPP_GITIGNORE: &'static str = "node_modules/\ndist/\n";

pub const COMPONENTS_DIR: &'static str = "src/components";
pub const PUBLIC_DIR: &'static str = "public";
pub const PACKAGE_FILE: &'static str = "package.json";
pub const INDEX_FILE: &'static str = "index.html";
pub const MAIN_FILE: &'static str = "src/main.jsx";
pub const APP_FILE: &'static str = "src/App.jsx";

/// The actions that create the dApp project `name`.
pub open spec fn dapp_actions(name: Seq<char>) -> Seq<ActionView> {
    seq![
        ActionView::Header(DAPP_HEADER@ + name),
        ActionView::Step(1, 3, STEP_STRUCTURE@),
        ActionView::CreateDir(name, COMPONENTS_DIR@),
        ActionView::CreateDir(name, PUBLIC_DIR@),
        ActionView::Step(2, 3, STEP_PACKAGE@),
        ActionView::WriteFile(name, PACKAGE_FILE@, dapp_package_text(name)),
        ActionView::Step(3, 3, STEP_APP@),
        ActionView::WriteFile(name, INDEX_FILE@, dapp_index_text(name)),
        ActionView::WriteFile(name, MAIN_FILE@, DAPP_MAIN@),
        ActionView::WriteFile(name, APP_FILE@, dapp_app_text(name)),
        ActionView::WriteFile(name, GITIGNORE_FILE@, DAPP_GITIGNORE@),
        ActionView::WriteFile(name, README_FILE@, dapp_readme_text(name)),
        ActionView::Blank,
        ActionView::Success(DAPP_DONE_HEAD@ + name + DONE_TAIL@),
        ActionView::Info(CD@ + name + NPM_HINT_TAIL@),
        ActionView::Blank,
    ]
}

/// Creating the dApp project `name` is refused when a directory of that
/// name exists, and otherwise takes `dapp_actions`.
pub open spec fn dapp_outcome(name: Seq<char>, dir_exists: bool) -> Result<
    Seq<ActionView>,
    ScaffoldErrorView,
> {
    if dir_exists {
        Err(ScaffoldErrorView::DirectoryExists(name))
    } else {
        Ok(dapp_actions(name))
    }
}

/// Plans the creation of the dApp project `name`, given whether a
/// directory named `name` already exists.
pub fn scaffold_dapp(name: String, dir_exists: bool) -> (res: Result<Vec<Action>, ScaffoldError>)
    ensures
        outcome_view(res) == dapp_outcome(name@, dir_exists),
{
    if dir_exists {
        return Err(ScaffoldError::DirectoryExists(name));
    }
    let n = name.as_str();
    let mut v: Vec<Action> = Vec::new();
    v.push(Action::Header(concat2(DAPP_HEADER, n)));
    v.push(Action::Step(1, 3, String::from_str(STEP_STRUCTURE)));
    v.push(Action::CreateDir(String::from_str(n), String::from_str(COMPONENTS_DIR)));
    v.push(Action::CreateDir(String::from_str(n), String::from_str(PUBLIC_DIR)));
    v.push(Action::Step(2, 3, String::from_str(STEP_PACKAGE)));
    v.push(Action::WriteFile(String::from_str(n), String::from_str(PACKAGE_FILE), dapp_package(n)));
    v.push(Action::Step(3, 3, String::from_str(STEP_APP)));
    v.push(Action::WriteFile(String::from_str(n), String::from_str(INDEX_FILE), dapp_index(n)));
    v.push(Action::WriteFile(String::from_str(n), String::from_str(MAIN_FILE), String::from_str(dapp_main())));
    v.push(Action::WriteFile(String::from_str(n), String::from_str(APP_FILE), dapp_app(n)));
    v.push(Action::WriteFile(String::from_str(n), String::from_str(GITIGNORE_FILE), String::from_str(DAPP_GITIGNORE)));
    v.push(Action::WriteFile(String::from_str(n), String::from_str(README_FILE), dapp_readme(n)));
    v.push(Action::Blank);
    v.push(Action::Success(concat3(DAPP_DONE_HEAD, n, DONE_TAIL)));
    v.push(Action::Info(concat3(CD, n, NPM_HINT_TAIL)));
    v.push(Action::Blank);
    assert(views(v@) =~= dapp_actions(name@));
    Ok(v)
}

// ── Interactive answers ─────────────────────────────────────────────────

/// The license of contracts created without questions.
pub const MIT: &'static str = "MIT";
/// The second license offered.
pub const APACHE: &'static str = "Apache-2.0";
/// The storage kind that asks for no accessors.
pub const NONE_STORAGE: &'static str = "none";
/// The template of contracts set up interactively.
pub const HELLO_WORLD: &'static str = "hello-world";

/// The author offered when asking for one.
pub const DEFAULT_AUTHOR: &'static str = "Your Name";

/// The licenses offered, in the order shown.
pub open spec fn license_list() -> Seq<Seq<char>> {
    seq![MIT@, APACHE@, NO_LICENSE@]
}

/// The storage kinds offered, in the order shown.
pub open spec fn storage_list() -> Seq<Seq<char>> {
    seq![PERSISTENT@, TEMPORARY@, NONE_STORAGE@]
}

/// The texts of a list of string slices.
pub open spec fn texts(v: Seq<&str>) -> Seq<Seq<char>> {
    v.map_values(|s: &str| s@)
}

/// The licenses offered, in the order shown.
pub fn license_choices() -> (res: Vec<&'static str>)
    ensures
        texts(res@) == license_list(),
{
    let mut v: Vec<&'static str> = Vec::new();
    v.push(MIT);
    v.push(APACHE);
    v.push(NO_LICENSE);
    assert(texts(v@) =~= license_list());
    v
}

/// The storage kinds offered, in the order shown.
pub fn storage_choices() -> (res: Vec<&'static str>)
    ensures
        texts(res@) == storage_list(),
{
    let mut v: Vec<&'static str> = Vec::new();
    v.push(PERSISTENT);
    v.push(TEMPORARY);
    v.push(NONE_STORAGE);
    assert(texts(v@) =~= storage_list());
    v
}

/// The answers given when a contract is set up interactively.
pub struct ContractOptions {
    pub name: String,
    pub author: String,
    pub license: String,
    pub storage: String,
    pub include_tests: bool,
}

/// Collects the answers; the license and the storage kind are given by
/// their positions in the lists offered.
pub fn contract_options(
    name: String,
    author: String,
    license_idx: usize,
    storage_idx: usize,
    include_tests: bool,
) -> (res: ContractOptions)
    requires
        license_idx < license_list().len(),
        storage_idx < storage_list().len(),
    ensures
        res.name@ == name@,
        res.author@ == author@,
        res.license@ == license_list()[license_idx as int],
        res.storage@ == storage_list()[storage_idx as int],
        res.include_tests == include_tests,
{
    let licenses = license_choices();
    let storages = storage_choices();
    let license = String::from_str(licenses[license_idx]);
    let storage = String::from_str(storages[storage_idx]);
    assert(texts(licenses@)[license_idx as int] == licenses@[license_idx as int]@);
    assert(texts(storages@)[storage_idx as int] == storages@[storage_idx as int]@);
    ContractOptions { name, author, license, storage, include_tests }
}

/// The outcome of an interactive set-up: nothing but the notice when the
/// user declines to write files, otherwise the hello-world contract with
/// the answers given.
pub open spec fn interactive_outcome(
    name: Seq<char>,
    author: Seq<char>,
    license: Seq<char>,
    storage: Seq<char>,
    include_tests: bool,
    confirmed: bool,
    dir_exists: bool,
) -> Result<Seq<ActionView>, ScaffoldErrorView> {
    if !confirmed {
        Ok(seq![ActionView::Aborted])
    } else {
        contract_outcome(name, HELLO_WORLD@, license, author, storage, include_tests, dir_exists)
    }
}

/// Plans what an interactive set-up does once the user has answered and
/// either confirmed or declined writing the files.
pub fn finish_interactive(opts: ContractOptions, confirmed: bool, dir_exists: bool) -> (res: Result<
    Vec<Action>,
    ScaffoldError,
>)
    ensures
        outcome_view(res) == interactive_outcome(
            opts.name@,
            opts.author@,
            opts.license@,
            opts.storage@,
            opts.include_tests,
            confirmed,
            dir_exists,
        ),
{
    if !confirmed {
        let mut v: Vec<Action> = Vec::new();
        v.push(Action::Aborted);
        assert(views(v@) =~= seq![ActionView::Aborted]);
        return Ok(v);
    }
    scaffold_contract(
        opts.name,
        String::from_str(HELLO_WORLD),
        opts.license.as_str(),
        opts.author.as_str(),
        opts.storage.as_str(),
        opts.include_tests,
        dir_exists,
    )
}

// ── Commands ────────────────────────────────────────────────────────────

/// The `new` subcommands.
pub enum NewCommands {
    /// Scaffold a new Soroban smart contract project.
    Contract { name: String, template: String, interactive: bool },
    /// Scaffold a new Stellar dApp (Vite + React).
    Dapp { name: String },
}

impl NewCommands {
    /// The name of the project that the command creates.
    pub open spec fn project_name(self) -> Seq<char> {
        match self {
            NewCommands::Contract { name, .. } => name@,
            NewCommands::Dapp { name } => name@,
        }
    }
}

/// What a command leads to: questions to ask first, or a finished plan.
pub enum Route {
    /// Ask the interactive questions, offering `default_name` as the name.
    Interactive { default_name: String },
    /// Carry out the plan (or report the refusal).
    Plan(Result<Vec<Action>, ScaffoldError>),
}

/// The outcome a command leads to without questions: a contract with the
/// MIT license, no author, no storage and a test module, or a dApp.
pub open spec fn command_outcome(cmd: NewCommands, dir_exists: bool) -> Result<
    Seq<ActionView>,
    ScaffoldErrorView,
> {
    match cmd {
        NewCommands::Contract { name, template, interactive } => contract_outcome(
            name@,
            template@,
            MIT@,
            Seq::empty(),
            NONE_STORAGE@,
            true,
            dir_exists,
        ),
        NewCommands::Dapp { name } => dapp_outcome(name@, dir_exists),
    }
}

/// Decides what a command does, given whether a directory named after
/// its project already exists: an interactive contract set-up asks its
/// questions first; every other command is planned at once.
pub fn route(cmd: NewCommands, dir_exists: bool) -> (res: Route)
    ensures
        cmd matches NewCommands::Contract { name, interactive: true, .. } ==> (
        res matches Route::Interactive { default_name } && default_name@ == name@),
        !(cmd matches NewCommands::Contract { interactive: true, .. }) ==> (
        res matches Route::Plan(r) && outcome_view(r) == command_outcome(cmd, dir_exists)),
{
    match cmd {
        NewCommands::Contract { name, template, interactive } => {
            if interactive {
                Route::Interactive { default_name: name }
            } else {
                proof {
                    reveal_strlit("");
                }
                Route::Plan(scaffold_contract(name, template, MIT, "", NONE_STORAGE, true, dir_exists))
            }
        },
        NewCommands::Dapp { name } => Route::Plan(scaffold_dapp(name, dir_exists)),
    }
}

// ── Laws ────────────────────────────────────────────────────────────────

/// The directory and the relative path under it that an action creates
/// or writes, if any.
pub open spec fn touched_path(a: ActionView) -> Option<(Seq<char>, Seq<char>)> {
    match a {
        ActionView::CreateDir(d, p) => Some((d, p)),
        ActionView::WriteFile(d, p, _) => Some((d, p)),
        _ => None,
    }
}

/// Whether `p` is a relative path that stays below the directory it is
/// joined onto: it is not empty, does not begin with a separator, names no
/// drive or prefix (no `:`), and has no `..` in it.
pub open spec fn stays_below(p: Seq<char>) -> bool {
    &&& p.len() > 0
    &&& p[0] != '/' && p[0] != '\\'
    &&& forall|i: int| 0 <= i < p.len() ==> #[trigger] p[i] != ':'
    &&& forall|i: int| 0 <= i < p.len() - 1 ==> !(#[trigger] p[i] == '.' && p[i + 1] == '.')
}

/// A project is refused exactly when a directory of its name exists, and
/// the refusal names that directory.
pub proof fn lemma_refused_iff_exists(
    name: Seq<char>,
    template: Seq<char>,
    license: Seq<char>,
    author: Seq<char>,
    storage: Seq<char>,
    include_tests: bool,
    dir_exists: bool,
)
    ensures
        contract_outcome(name, template, license, author, storage, include_tests, dir_exists) is Err
            <==> dir_exists,
        dapp_outcome(name, dir_exists) is Err <==> dir_exists,
        dir_exists ==> contract_outcome(
            name,
            template,
            license,
            author,
            storage,
            include_tests,
            dir_exists,
        ) == Err::<Seq<ActionView>, ScaffoldErrorView>(ScaffoldErrorView::DirectoryExists(name)),
        dir_exists ==> dapp_outcome(name, dir_exists) == Err::<Seq<ActionView>, ScaffoldErrorView>(
            ScaffoldErrorView::DirectoryExists(name),
        ),
{
}

/// The relative paths that projects are made of stay below the project's
/// directory.
proof fn lemma_parts_stay_below()
    ensures
        stays_below(SRC_DIR@),
        stays_below(CARGO_DIR@),
        stays_below(CARGO_TOML_FILE@),
        stays_below(CARGO_CONFIG_FILE@),
        stays_below(GITIGNORE_FILE@),
        stays_below(LIB_FILE@),
        stays_below(README_FILE@),
        stays_below(COMPONENTS_DIR@),
        stays_below(PUBLIC_DIR@),
        stays_below(PACKAGE_FILE@),
        stays_below(INDEX_FILE@),
        stays_below(MAIN_FILE@),
        stays_below(APP_FILE@),
{
    reveal_strlit("src");
    reveal_strlit(".cargo");
    reveal_strlit("Cargo.toml");
    reveal_strlit(".cargo/config.toml");
    reveal_strlit(".gitignore");
    reveal_strlit("src/lib.rs");
    reveal_strlit("README.md");
    reveal_strlit("src/components");
    reveal_strlit("public");
    reveal_strlit("package.json");
    reveal_strlit("index.html");
    reveal_strlit("src/main.jsx");
    reveal_strlit("src/App.jsx");
}

/// Every directory created and every file written for a contract project
/// is a relative path, staying below it, joined onto the project's
/// directory.
pub proof fn lemma_contract_stays_inside(
    name: Seq<char>,
    template: Seq<char>,
    license: Seq<char>,
    author: Seq<char>,
    storage: Seq<char>,
    include_tests: bool,
)
    ensures
        forall|i: int|
            0 <= i < contract_actions(name, template, license, author, storage, include_tests).len()
                ==> (#[trigger] touched_path(
                contract_actions(name, template, license, author, storage, include_tests)[i],
            ) matches Some((d, p)) ==> d == name && stays_below(p)),
{
    lemma_parts_stay_below();
}

/// Every directory created and every file written for a dApp project is a
/// relative path, staying below it, joined onto the project's directory.
pub proof fn lemma_dapp_stays_inside(name: Seq<char>)
    ensures
        forall|i: int|
            0 <= i < dapp_actions(name).len() ==> (#[trigger] touched_path(dapp_actions(name)[i])
                matches Some((d, p)) ==> d == name && stays_below(p)),
{
    lemma_parts_stay_below();
}

/// Declining at the end of an interactive set-up creates and writes
/// nothing, whatever the answers and whether the directory exists.
pub proof fn lemma_decline_writes_nothing(
    name: Seq<char>,
    author: Seq<char>,
    license: Seq<char>,
    storage: Seq<char>,
    include_tests: bool,
    dir_exists: bool,
)
    ensures
        interactive_outcome(name, author, license, storage, include_tests, false, dir_exists)
            matches Ok(plan) && forall|i: int|
            0 <= i < plan.len() ==> #[trigger] touched_path(plan[i]) is None,
{
}

/// The compiled contract that the next-steps hint tells the user to
/// deploy is the one the README's deploy command names.
pub proof fn lemma_deploy_hint_matches_readme(
    name: Seq<char>,
    template: Seq<char>,
    license: Seq<char>,
    author: Seq<char>,
    storage: Seq<char>,
    include_tests: bool,
)
    ensures
        ({
            let plan = contract_actions(name, template, license, author, storage, include_tests);
            let wasm = snake(name);
            &&& plan.contains(ActionView::Info(DEPLOY_HINT_HEAD@ + wasm + WASM_SUFFIX@))
            &&& plan.contains(
                ActionView::WriteFile(
                    name,
                    README_FILE@,
                    README_HEAD@ + name + README_BODY@ + wasm + README_TEMPLATE@ + template
                        + README_TAIL@,
                ),
            )
        }),
{
    let plan = contract_actions(name, template, license, author, storage, include_tests);
    assert(plan[19] == ActionView::Info(DEPLOY_HINT_HEAD@ + snake(name) + WASM_SUFFIX@));
    assert(plan[12] == ActionView::WriteFile(name, README_FILE@, readme_text(name, template)));
}

/// Whether the plan writes the file at `part` under `dir` with `text`.
pub open spec fn writes_file(
    plan: Seq<ActionView>,
    dir: Seq<char>,
    part: Seq<char>,
    text: Seq<char>,
) -> bool {
    exists|i: int| 0 <= i < plan.len() && #[trigger] plan[i] == ActionView::WriteFile(dir, part, text)
}

/// The file that an action writes, if any.
pub open spec fn file_target(a: ActionView) -> Option<(Seq<char>, Seq<char>)> {
    match a {
        ActionView::WriteFile(d, p, _) => Some((d, p)),
        _ => None,
    }
}

/// Whether no file is written twice by the plan, so that the text it
/// writes to a path is the only one.
pub open spec fn writes_each_file_once(plan: Seq<ActionView>) -> bool {
    forall|i: int, j: int|
        0 <= i < plan.len() && 0 <= j < plan.len() && (#[trigger] file_target(plan[i])) is Some
            && file_target(plan[i]) == #[trigger] file_target(plan[j]) ==> i == j
}

/// The files of a project have different names.
proof fn lemma_file_names_distinct()
    ensures
        CARGO_TOML_FILE@ != CARGO_CONFIG_FILE@,
        CARGO_TOML_FILE@ != GITIGNORE_FILE@,
        CARGO_TOML_FILE@ != LIB_FILE@,
        CARGO_TOML_FILE@ != README_FILE@,
        CARGO_TOML_FILE@ != PACKAGE_FILE@,
        CARGO_TOML_FILE@ != INDEX_FILE@,
        CARGO_TOML_FILE@ != MAIN_FILE@,
        CARGO_TOML_FILE@ != APP_FILE@,
        CARGO_CONFIG_FILE@ != GITIGNORE_FILE@,
        CARGO_CONFIG_FILE@ != LIB_FILE@,
        CARGO_CONFIG_FILE@ != README_FILE@,
        CARGO_CONFIG_FILE@ != PACKAGE_FILE@,
        CARGO_CONFIG_FILE@ != INDEX_FILE@,
        CARGO_CONFIG_FILE@ != MAIN_FILE@,
        CARGO_CONFIG_FILE@ != APP_FILE@,
        GITIGNORE_FILE@ != LIB_FILE@,
        GITIGNORE_FILE@ != README_FILE@,
        GITIGNORE_FILE@ != PACKAGE_FILE@,
        GITIGNORE_FILE@ != INDEX_FILE@,
        GITIGNORE_FILE@ != MAIN_FILE@,
        GITIGNORE_FILE@ != APP_FILE@,
        LIB_FILE@ != README_FILE@,
        LIB_FILE@ != PACKAGE_FILE@,
        LIB_FILE@ != INDEX_FILE@,
        LIB_FILE@ != MAIN_FILE@,
        LIB_FILE@ != APP_FILE@,
        README_FILE@ != PACKAGE_FILE@,
        README_FILE@ != INDEX_FILE@,
        README_FILE@ != MAIN_FILE@,
        README_FILE@ != APP_FILE@,
        PACKAGE_FILE@ != INDEX_FILE@,
        PACKAGE_FILE@ != MAIN_FILE@,
        PACKAGE_FILE@ != APP_FILE@,
        INDEX_FILE@ != MAIN_FILE@,
        INDEX_FILE@ != APP_FILE@,
        MAIN_FILE@ != APP_FILE@,
{
    reveal_strlit("Cargo.toml");
    reveal_strlit(".cargo/config.toml");
    reveal_strlit(".gitignore");
    reveal_strlit("src/lib.rs");
    reveal_strlit("README.md");
    reveal_strlit("package.json");
    reveal_strlit("index.html");
    reveal_strlit("src/main.jsx");
    reveal_strlit("src/App.jsx");
    assert(CARGO_TOML_FILE@.len() != CARGO_CONFIG_FILE@.len());
    assert(CARGO_TOML_FILE@[0] != GITIGNORE_FILE@[0]);
    assert(CARGO_TOML_FILE@[0] != LIB_FILE@[0]);
    assert(CARGO_TOML_FILE@.len() != README_FILE@.len());
    assert(CARGO_TOML_FILE@.len() != PACKAGE_FILE@.len());
    assert(CARGO_TOML_FILE@[0] != INDEX_FILE@[0]);
    assert(CARGO_TOML_FILE@.len() != MAIN_FILE@.len());
    assert(CARGO_TOML_FILE@.len() != APP_FILE@.len());
    assert(CARGO_CONFIG_FILE@.len() != GITIGNORE_FILE@.len());
    assert(CARGO_CONFIG_FILE@.len() != LIB_FILE@.len());
    assert(CARGO_CONFIG_FILE@.len() != README_FILE@.len());
    assert(CARGO_CONFIG_FILE@.len() != PACKAGE_FILE@.len());
    assert(CARGO_CONFIG_FILE@.len() != INDEX_FILE@.len());
    assert(CARGO_CONFIG_FILE@.len() != MAIN_FILE@.len());
    assert(CARGO_CONFIG_FILE@.len() != APP_FILE@.len());
    assert(GITIGNORE_FILE@[0] != LIB_FILE@[0]);
    assert(GITIGNORE_FILE@.len() != README_FILE@.len());
    assert(GITIGNORE_FILE@.len() != PACKAGE_FILE@.len());
    assert(GITIGNORE_FILE@[0] != INDEX_FILE@[0]);
    assert(GITIGNORE_FILE@.len() != MAIN_FILE@.len());
    assert(GITIGNORE_FILE@.len() != APP_FILE@.len());
    assert(LIB_FILE@.len() != README_FILE@.len());
    assert(LIB_FILE@.len() != PACKAGE_FILE@.len());
    assert(LIB_FILE@[0] != INDEX_FILE@[0]);
    assert(LIB_FILE@.len() != MAIN_FILE@.len());
    assert(LIB_FILE@.len() != APP_FILE@.len());
    assert(README_FILE@.len() != PACKAGE_FILE@.len());
    assert(README_FILE@.len() != INDEX_FILE@.len());
    assert(README_FILE@.len() != MAIN_FILE@.len());
    assert(README_FILE@.len() != APP_FILE@.len());
    assert(PACKAGE_FILE@.len() != INDEX_FILE@.len());
    assert(PACKAGE_FILE@[0] != MAIN_FILE@[0]);
    assert(PACKAGE_FILE@.len() != APP_FILE@.len());
    assert(INDEX_FILE@.len() != MAIN_FILE@.len());
    assert(INDEX_FILE@.len() != APP_FILE@.len());
    assert(MAIN_FILE@.len() != APP_FILE@.len());
}

/// A contract project writes each of its files once, `src/lib.rs` among
/// them; the template `token`, `voting` or `nft` makes `src/lib.rs` that
/// template's own contract (its imports, the project's type, its entry
/// points), and any other template makes it the hello-world contract with
/// the storage kind and test module asked for; `Cargo.toml` carries the
/// license and author given.
pub proof fn lemma_contract_files(
    name: Seq<char>,
    template: Seq<char>,
    license: Seq<char>,
    author: Seq<char>,
    storage: Seq<char>,
    include_tests: bool,
)
    ensures
        writes_each_file_once(contract_actions(name, template, license, author, storage, include_tests)),
        writes_file(
            contract_actions(name, template, license, author, storage, include_tests),
            name,
            CARGO_TOML_FILE@,
            cargo_toml_text(name, license, author),
        ),
        template == TOKEN@ ==> writes_file(
            contract_actions(name, template, license, author, storage, include_tests),
            name,
            LIB_FILE@,
            ADDRESS_STRING_HEAD@ + contract_decl(pascal_case(name)) + TOKEN_BODY@,
        ),
        template == VOTING@ ==> writes_file(
            contract_actions(name, template, license, author, storage, include_tests),
            name,
            LIB_FILE@,
            VOTING_HEAD@ + contract_decl(pascal_case(name)) + VOTING_BODY@,
        ),
        template == NFT@ ==> writes_file(
            contract_actions(name, template, license, author, storage, include_tests),
            name,
            LIB_FILE@,
            ADDRESS_STRING_HEAD@ + contract_decl(pascal_case(name)) + NFT_BODY@,
        ),
        !(template == TOKEN@ || template == VOTING@ || template == NFT@) ==> writes_file(
            contract_actions(name, template, license, author, storage, include_tests),
            name,
            LIB_FILE@,
            hello_world_text(name, storage, include_tests),
        ),
{
    let plan = contract_actions(name, template, license, author, storage, include_tests);
    lemma_file_names_distinct();
    assert(plan[6] == ActionView::WriteFile(name, CARGO_TOML_FILE@, cargo_toml_text(name, license, author)));
    assert(plan[10] == ActionView::WriteFile(
        name,
        LIB_FILE@,
        contract_source_text(name, template, storage, include_tests),
    ));
    reveal_strlit("token");
    reveal_strlit("voting");
    reveal_strlit("nft");
    assert(TOKEN@ != VOTING@ && TOKEN@ != NFT@ && VOTING@ != NFT@) by {
        assert(TOKEN@[0] != VOTING@[0] && TOKEN@[0] != NFT@[0] && VOTING@[0] != NFT@[0]);
    }
    assert forall|i: int, j: int|
        0 <= i < plan.len() && 0 <= j < plan.len() && (#[trigger] file_target(plan[i])) is Some
            && file_target(plan[i]) == #[trigger] file_target(plan[j]) implies i == j by {
        lemma_file_names_distinct();
    }
}

/// A confirmed interactive set-up in a free place writes the hello-world
/// contract with the storage kind and the test-module answer given, and a
/// `Cargo.toml` with the license and author given, each file once; with
/// the test module asked for, `src/lib.rs` holds it.
pub proof fn lemma_interactive_confirmed(
    name: Seq<char>,
    author: Seq<char>,
    license: Seq<char>,
    storage: Seq<char>,
    include_tests: bool,
)
    ensures
        interactive_outcome(name, author, license, storage, include_tests, true, false) matches Ok(
            plan,
        ) && {
            &&& writes_each_file_once(plan)
            &&& writes_file(plan, name, LIB_FILE@, hello_world_text(name, storage, include_tests))
            &&& writes_file(plan, name, CARGO_TOML_FILE@, cargo_toml_text(name, license, author))
            &&& include_tests ==> exists|src: Seq<char>|
                writes_file(plan, name, LIB_FILE@, src) && contains_text(src, hello_test_module(name))
        },
{
    reveal_strlit("hello-world");
    reveal_strlit("token");
    reveal_strlit("voting");
    reveal_strlit("nft");
    assert(HELLO_WORLD@ != TOKEN@ && HELLO_WORLD@ != VOTING@ && HELLO_WORLD@ != NFT@) by {
        assert(HELLO_WORLD@[0] != TOKEN@[0] && HELLO_WORLD@[0] != VOTING@[0] && HELLO_WORLD@[0]
            != NFT@[0]);
    }
    lemma_contract_files(name, HELLO_WORLD@, license, author, storage, include_tests);
    lemma_hello_world_options(name, storage, include_tests);
}

/// A dApp project writes each of its files once: `package.json`,
/// `index.html` and `src/App.jsx` made around the project's name,
/// `src/main.jsx` the entry module that mounts the app, `.gitignore`, and
/// the README.
pub proof fn lemma_dapp_files(name: Seq<char>)
    ensures
        writes_each_file_once(dapp_actions(name)),
        writes_file(dapp_actions(name), name, PACKAGE_FILE@, DAPP_PACKAGE_HEAD@ + name + DAPP_PACKAGE_TAIL@),
        writes_file(dapp_actions(name), name, INDEX_FILE@, DAPP_INDEX_HEAD@ + name + DAPP_INDEX_TAIL@),
        writes_file(dapp_actions(name), name, MAIN_FILE@, DAPP_MAIN@),
        writes_file(dapp_actions(name), name, APP_FILE@, DAPP_APP_HEAD@ + name + DAPP_APP_TAIL@),
        writes_file(dapp_actions(name), name, GITIGNORE_FILE@, DAPP_GITIGNORE@),
        writes_file(dapp_actions(name), name, README_FILE@, DAPP_README_HEAD@ + name + DAPP_README_BODY@),
{
    let plan = dapp_actions(name);
    assert(plan[5] == ActionView::WriteFile(name, PACKAGE_FILE@, DAPP_PACKAGE_HEAD@ + name + DAPP_PACKAGE_TAIL@));
    assert(plan[7] == ActionView::WriteFile(name, INDEX_FILE@, DAPP_INDEX_HEAD@ + name + DAPP_INDEX_TAIL@));
    assert(plan[8] == ActionView::WriteFile(name, MAIN_FILE@, DAPP_MAIN@));
    assert(plan[9] == ActionView::WriteFile(name, APP_FILE@, DAPP_APP_HEAD@ + name + DAPP_APP_TAIL@));
    assert(plan[10] == ActionView::WriteFile(name, GITIGNORE_FILE@, DAPP_GITIGNORE@));
    assert(plan[11] == ActionView::WriteFile(name, README_FILE@, DAPP_README_HEAD@ + name + DAPP_README_BODY@));
    assert forall|i: int, j: int|
        0 <= i < plan.len() && 0 <= j < plan.len() && (#[trigger] file_target(plan[i])) is Some
            && file_target(plan[i]) == #[trigger] file_target(plan[j]) implies i == j by {
        lemma_file_names_distinct();
    }
}

} // verus!
