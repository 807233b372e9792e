//! Scaffolding of Soroban smart-contract projects and Stellar dApps:
//! the generated files, the plan of actions that writes them, and the
//! location of the tool's configuration.

pub mod text;
pub mod templates;
pub mod scaffold;
pub mod config;
