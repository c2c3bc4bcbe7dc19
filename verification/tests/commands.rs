use linkup_cli::commands::uninstall::{confirms, uninstall_step, UninstallStep};
use linkup_cli::commands::update::{channel_of, shows_update_notice, CommandKind, DesiredChannel};
use linkup_cli::release::VersionChannel;
use linkup_cli::update::InstallationMethod;

#[test]
fn uninstall_confirmation() {
    assert!(confirms("y"));
    assert!(confirms(" YES \n"));
    assert!(confirms("Yes"));
    assert!(!confirms("no"));
    assert!(!confirms(""));
    assert!(!confirms("yess"));
}

#[test]
fn uninstall_commands() {
    match uninstall_step(InstallationMethod::Brew, "/x/linkup", true) {
        UninstallStep::Run(v) => assert_eq!(v, vec!["brew", "uninstall", "linkup"]),
        _ => panic!(),
    }
    match uninstall_step(InstallationMethod::Cargo, "/x/linkup", false) {
        UninstallStep::Run(v) => assert_eq!(v, vec!["cargo", "uninstall", "linkup-cli"]),
        _ => panic!(),
    }
    match uninstall_step(InstallationMethod::Manual, "/x/linkup", true) {
        UninstallStep::Run(v) => assert_eq!(v, vec!["sudo", "rm", "-f", "/x/linkup"]),
        _ => panic!(),
    }
    match uninstall_step(InstallationMethod::Manual, "/x/linkup", false) {
        UninstallStep::RemoveFile(f) => assert_eq!(f, "/x/linkup"),
        _ => panic!(),
    }
}

#[test]
fn desired_channels() {
    assert!(channel_of(DesiredChannel::Beta) == VersionChannel::Beta);
    assert!(channel_of(DesiredChannel::Stable) == VersionChannel::Stable);
}

#[test]
fn update_notice_only_where_output_is_for_people() {
    assert!(!shows_update_notice(CommandKind::Completion));
    assert!(!shows_update_notice(CommandKind::Health { json: true }));
    assert!(shows_update_notice(CommandKind::Health { json: false }));
    assert!(!shows_update_notice(CommandKind::Status { json: true }));
    assert!(shows_update_notice(CommandKind::Status { json: false }));
    assert!(!shows_update_notice(CommandKind::Uninstall));
    assert!(!shows_update_notice(CommandKind::Update));
    assert!(shows_update_notice(CommandKind::Other));
}

#[test]
fn update_notice_names_the_command() {
    assert_eq!(
        linkup_cli::commands::update::update_notice("brew upgrade linkup"),
        "⚠️ New version of linkup is available! Run `brew upgrade linkup` to update it.\n"
    );
}
