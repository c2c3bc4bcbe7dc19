//! Verified core of the linkup command line tool.
pub mod env_file;
pub mod text;
pub mod domains;
pub mod update;
pub mod release;
pub mod state;
pub mod urls;
pub mod status;
pub mod services;
pub mod startup;
pub mod tunnel;
pub mod deploy;
pub mod cf_api;
pub mod health;
pub mod sessions;
pub mod paths;
pub mod commands;
pub mod preview;
