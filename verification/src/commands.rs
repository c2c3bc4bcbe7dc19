//! The arguments of the subcommands, and the decisions they make on them.
pub mod status;
pub mod stop;
pub mod uninstall;
pub mod update;
