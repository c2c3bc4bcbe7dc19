//! The arguments of `linkup update`.
use vstd::prelude::*;
use vstd::string::StringExecFns;
use crate::release::VersionChannel;

verus! {

/// The channel to update with.
#[derive(PartialEq, Eq, Structural, Clone, Copy)]
pub enum DesiredChannel {
    Stable,
    Beta,
}

/// `linkup update`: ignore the cached latest version; the channel to
/// update to.
pub struct Args {
    pub skip_cache: bool,
    pub channel: Option<DesiredChannel>,
}

/// The release channel a requested channel stands for.
pub fn channel_of(c: DesiredChannel) -> (r: VersionChannel)
    ensures
        r == match c {
            DesiredChannel::Stable => VersionChannel::Stable,
            DesiredChannel::Beta => VersionChannel::Beta,
        },
{
    match c {
        DesiredChannel::Stable => VersionChannel::Stable,
        DesiredChannel::Beta => VersionChannel::Beta,
    }
}

/// The subcommands, as far as the notice of a new version tells them apart.
#[derive(PartialEq, Eq, Structural, Clone, Copy)]
pub enum CommandKind {
    Completion,
    Health { json: bool },
    Status { json: bool },
    Uninstall,
    Update,
    Other,
}

/// The notice of a new version is printed before a command, except before
/// one whose output a program reads (completions, JSON output), while
/// uninstalling, and while already updating.
pub open spec fn notice_wanted(kind: CommandKind) -> bool {
    match kind {
        CommandKind::Completion => false,
        CommandKind::Health { json } => !json,
        CommandKind::Status { json } => !json,
        CommandKind::Uninstall => false,
        CommandKind::Update => false,
        CommandKind::Other => true,
    }
}

/// Whether the notice of a new version may be printed before the command.
pub fn shows_update_notice(kind: CommandKind) -> (r: bool)
    ensures
        r == notice_wanted(kind),
{
    match kind {
        CommandKind::Completion => false,
        CommandKind::Health { json } => !json,
        CommandKind::Status { json } => !json,
        CommandKind::Uninstall => false,
        CommandKind::Update => false,
        CommandKind::Other => true,
    }
}

/// The notice that a new version is available, naming the command that
/// updates.
pub open spec fn update_notice_text(command: Seq<char>) -> Seq<char> {
    "\u{26a0}\u{fe0f} New version of linkup is available! Run `"@ + command + "` to update it.\n"@
}

/// The notice that a new version is available.
pub fn update_notice(command: &str) -> (r: String)
    ensures
        r@ == update_notice_text(command@),
{
    let mut s = String::from_str("\u{26a0}\u{fe0f} New version of linkup is available! Run `");
    s.append(command);
    s.append("` to update it.\n");
    s
}

} // verus!
